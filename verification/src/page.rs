//! The rendered body of each view: the block-list rows, the detail
//! panel's lines, and the dispatch from route to view.

use vstd::prelude::*;

use crate::detail::BlockDetail;
use crate::route::AppRoute;
use crate::state::ExplorerState;
use crate::state::lemma_history_newest_first;
use crate::state::replay_blocks;
use crate::state::replay_current;
use crate::text::dec_str;
use crate::text::u32_to_string;
use crate::text::usize_to_string;

verus! {

/// The rows of the block-list table: one per seen block number, newest
/// first, each the number's decimal text.
pub open spec fn rows_spec(blocks: Seq<u32>) -> Seq<Seq<char>> {
    blocks.map_values(|b: u32| dec_str(b as nat))
}

/// The lines of the detail panel, labels and values interleaved, top to
/// bottom: the block number, the hex hash, the extrinsic count and the
/// event count, each displayed verbatim.
pub open spec fn detail_lines_spec(d: BlockDetail) -> Seq<Seq<char>> {
    seq![
        "Block number"@,
        dec_str(d.block_number as nat),
        "Hash"@,
        d.hash_hex@,
        "Extrinsics"@,
        dec_str(d.extrinsic_count as nat),
        "Events"@,
        dec_str(d.event_count as nat),
    ]
}

/// What the routed body shows.
pub enum BodyView {
    /// The block-list table's rows.
    List(Vec<String>),
    /// The detail panel's lines for one fetched block.
    Detail(Vec<String>),
    /// The detail route while its block's data is not yet fetched.
    Pending(u32),
    /// The not-found message.
    NotFound,
}

/// The navigation bar's title text.
pub fn page_title() -> (r: &'static str)
    ensures
        r@ == "HybridScan"@,
{
    "HybridScan"
}

/// The not-found view's message text.
pub fn not_found_message() -> (r: &'static str)
    ensures
        r@ == "404 Not Found"@,
{
    "404 Not Found"
}

/// Render the block-list rows for a list of seen block numbers.
pub fn render_list(blocks: &Vec<u32>) -> (rows: Vec<String>)
    ensures
        rows.deep_view() == rows_spec(blocks@),
{
    let mut rows: Vec<String> = Vec::new();
    let mut i: usize = 0;
    while i < blocks.len()
        invariant
            i <= blocks@.len(),
            rows.deep_view() == rows_spec(blocks@.take(i as int)),
        decreases blocks@.len() - i,
    {
        let ghost prev_rows = rows.deep_view();
        let ghost prev_i = i as int;
        rows.push(u32_to_string(blocks[i]));
        i = i + 1;
        proof {
            let cur = rows_spec(blocks@.take(i as int));
            assert(prev_rows.len() == prev_i);
            assert(rows.deep_view().len() == prev_i + 1);
            assert(cur.len() == i as int);
            assert forall|j: int| 0 <= j < rows.deep_view().len() implies rows.deep_view()[j]
                == cur[j] by {
                if j < prev_rows.len() {
                    assert(rows.deep_view()[j] == prev_rows[j]);
                    assert(prev_rows[j] == rows_spec(blocks@.take(prev_i))[j]);
                    assert(blocks@.take(prev_i)[j] == blocks@.take(i as int)[j]);
                } else {
                    assert(rows.deep_view()[j] == rows@[j]@);
                }
            }
            assert(rows.deep_view() =~= cur);
        }
    }
    proof {
        assert(blocks@.take(blocks@.len() as int) =~= blocks@);
    }
    rows
}

/// Render the detail panel's lines for one fetched block.
pub fn render_detail(d: &BlockDetail) -> (lines: Vec<String>)
    ensures
        lines.deep_view() == detail_lines_spec(*d),
{
    let mut lines: Vec<String> = Vec::new();
    lines.push(String::from_str("Block number"));
    lines.push(u32_to_string(d.block_number));
    lines.push(String::from_str("Hash"));
    lines.push(d.hash_hex.clone());
    lines.push(String::from_str("Extrinsics"));
    lines.push(usize_to_string(d.extrinsic_count));
    lines.push(String::from_str("Events"));
    lines.push(usize_to_string(d.event_count));
    proof {
        assert(lines.deep_view() =~= detail_lines_spec(*d));
    }
    lines
}

/// Law: after any arrival history, the rendered list shows the notified
/// numbers newest first — the reverse of arrival order — and the
/// navigation bar's rendered number is the latest arrival's decimal text.
pub proof fn lemma_rendered_history(notifs: Seq<u32>)
    ensures
        rows_spec(replay_blocks(notifs)) == notifs.reverse().map_values(
            |b: u32| dec_str(b as nat),
        ),
        notifs.len() > 0 ==> dec_str(replay_current(notifs) as nat) == dec_str(
            notifs.last() as nat,
        ),
{
    lemma_history_newest_first(notifs);
}

/// Select and render the body the route calls for: the list on the root
/// route, the detail panel on a block route once that block's data is
/// fetched, the not-found message otherwise.
pub fn render_body(route: AppRoute, state: &ExplorerState, fetched: Option<&BlockDetail>) -> (v:
    BodyView)
    ensures
        match route {
            AppRoute::Home => (v matches BodyView::List(rows) && rows.deep_view() == rows_spec(
                state.blocks@,
            )),
            AppRoute::Block { block_number } => (match fetched {
                Some(d) => {
                    if d.block_number == block_number {
                        v matches BodyView::Detail(lines) && lines.deep_view()
                            == detail_lines_spec(*d)
                    } else {
                        v == BodyView::Pending(block_number)
                    }
                },
                None => v == BodyView::Pending(block_number),
            }),
            AppRoute::NotFound => v == BodyView::NotFound,
        },
{
    match route {
        AppRoute::Home => BodyView::List(render_list(&state.blocks)),
        AppRoute::Block { block_number } => match fetched {
            Some(d) => {
                if d.block_number == block_number {
                    BodyView::Detail(render_detail(d))
                } else {
                    BodyView::Pending(block_number)
                }
            },
            None => BodyView::Pending(block_number),
        },
        AppRoute::NotFound => BodyView::NotFound,
    }
}

} // verus!
