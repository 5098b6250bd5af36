//! Static page bodies.
//!
//! Each page handler returns a fixed HTML document. The bodies are constants,
//! and each handler's contract pins its result to its constant, so repeated
//! calls return byte-identical bodies.

use vstd::prelude::*;

verus! {

/// The home page: a welcome line with links to the three letter pages.
pub const HOME_HTML: &'static str = r#"
            <h1 style='text-align: center;'>Welcome to Big Letters!</h1>
            <p style='text-align: center;'>
                Check out some big letters:
                <a href='/a'>A</a> |
                <a href='/b'>B</a> |
                <a href='/c'>C</a>
            </p>
        "#;

/// Page A: the big letter, a home button, and the interactive grid. The
/// embedded script is a browser-side consumer of the JSON API: it fetches
/// the grid on load and, on every cell click, posts the cell's index and
/// redraws.
pub const PAGE_A_HTML: &'static str = r#"
            <h1 style='font-size: 200px; text-align: center;'>A</h1>
            <div style='text-align: center;'>
                <form action='/' method='get'>
                    <button type='submit' style='font-size: 24px;'>Go Home</button>
                </form>
            </div>
            <div id='grid' style='
                display: grid;
                grid-template-columns: repeat(16, 20px);
                grid-template-rows: repeat(16, 20px);
                gap: 2px;
                justify-content: center;
                margin-top: 40px;
            '>
            </div>
            <script>
                async function fetchGrid() {
                    const res = await fetch('/api/grid');
                    return await res.json();
                }
                async function updateCell(idx) {
                    await fetch('/api/cell', {
                        method: 'POST',
                        headers: {'Content-Type': 'application/json'},
                        body: JSON.stringify({ idx })
                    });
                    renderGrid();
                }
                async function renderGrid() {
                    const gridDiv = document.getElementById('grid');
                    const grid = await fetchGrid();
                    gridDiv.innerHTML = '';
                    for (let i = 0; i < grid.cells.length; i++) {
                        const cell = document.createElement('div');
                        const brightness = grid.cells[i];
                        cell.style.width = '20px';
                        cell.style.height = '20px';
                        cell.style.background = `rgb(${brightness},${brightness},${brightness})`;
                        cell.style.border = '1px solid #ccc';
                        cell.onclick = () => updateCell(i);
                        gridDiv.appendChild(cell);
                    }
                }
                renderGrid();
            </script>
        "#;

/// Page B: the big letter and a home button.
pub const PAGE_B_HTML: &'static str = r#"
            <h1 style='font-size: 200px; text-align: center;'>B</h1>
            <div style='text-align: center;'>
                <form action='/' method='get'>
                    <button type='submit' style='font-size: 24px;'>Go Home</button>
                </form>
            </div>
        "#;

/// Page C: the big letter and a home button.
pub const PAGE_C_HTML: &'static str = r#"
            <h1 style='font-size: 200px; text-align: center;'>C</h1>
            <div style='text-align: center;'>
                <form action='/' method='get'>
                    <button type='submit' style='font-size: 24px;'>Go Home</button>
                </form>
            </div>
        "#;

/// Body of the home page.
pub fn index() -> (r: &'static str)
    ensures
        r@ == HOME_HTML@,
{
    HOME_HTML
}

/// Body of page A.
pub fn page_a() -> (r: &'static str)
    ensures
        r@ == PAGE_A_HTML@,
{
    PAGE_A_HTML
}

/// Body of page B.
pub fn page_b() -> (r: &'static str)
    ensures
        r@ == PAGE_B_HTML@,
{
    PAGE_B_HTML
}

/// Body of page C.
pub fn page_c() -> (r: &'static str)
    ensures
        r@ == PAGE_C_HTML@,
{
    PAGE_C_HTML
}

} // verus!
