use hybridscan::detail::BlockDetail;
use hybridscan::page::not_found_message;
use hybridscan::page::page_title;
use hybridscan::page::render_body;
use hybridscan::page::render_detail;
use hybridscan::page::render_list;
use hybridscan::page::BodyView;
use hybridscan::route::parse_route;
use hybridscan::state::replay;
use hybridscan::state::ExplorerState;
use hybridscan::text::u32_to_string;
use hybridscan::text::usize_to_string;

#[test]
fn zero_renders_as_a_single_digit() {
    assert_eq!(u32_to_string(0), "0");
}

#[test]
fn largest_block_number_renders_exactly() {
    assert_eq!(u32_to_string(4294967295), "4294967295");
}

#[test]
fn counts_render_exactly() {
    assert_eq!(usize_to_string(1234567890), "1234567890");
}

#[test]
fn hash_is_hex_encoded_lowercase() {
    let d = BlockDetail::new(7, &[0xab, 0x01, 0xff], 3, 5);
    assert_eq!(d.hash_hex, "ab01ff");
    assert_eq!(d.block_number, 7);
    assert_eq!(d.extrinsic_count, 3);
    assert_eq!(d.event_count, 5);
}

#[test]
fn empty_hash_encodes_to_empty_text() {
    let d = BlockDetail::new(1, &[], 0, 0);
    assert_eq!(d.hash_hex, "");
}

#[test]
fn detail_panel_shows_counts_beside_the_hash() {
    let d = BlockDetail::new(7, &[0xab, 0x01, 0xff], 3, 5);
    let lines = render_detail(&d);
    assert_eq!(
        lines,
        vec!["Block number", "7", "Hash", "ab01ff", "Extrinsics", "3", "Events", "5"]
    );
}

#[test]
fn list_rows_follow_the_block_order() {
    let rows = render_list(&vec![4, 1, 3]);
    assert_eq!(rows, vec!["4", "1", "3"]);
}

#[test]
fn empty_history_renders_zero_rows() {
    let rows = render_list(&vec![]);
    assert_eq!(rows.len(), 0);
}

#[test]
fn root_route_renders_the_list_newest_first() {
    let s = replay(&vec![1, 2]);
    let body = render_body(parse_route(b"/"), &s, None);
    match body {
        BodyView::List(rows) => assert_eq!(rows, vec!["2", "1"]),
        _ => panic!("root route must select the list view"),
    }
}

#[test]
fn root_route_with_empty_history_renders_zero_rows() {
    let s = ExplorerState::new();
    let body = render_body(parse_route(b"/"), &s, None);
    match body {
        BodyView::List(rows) => assert_eq!(rows.len(), 0),
        _ => panic!("root route must select the list view"),
    }
}

#[test]
fn block_route_renders_the_fetched_detail_verbatim() {
    let s = ExplorerState::new();
    let d = BlockDetail::new(7, &[0x12], 2, 6);
    let body = render_body(parse_route(b"/block/7"), &s, Some(&d));
    match body {
        BodyView::Detail(lines) => {
            assert_eq!(lines[1], "7");
            assert_eq!(lines[3], "12");
            assert_eq!(lines[5], "2");
            assert_eq!(lines[7], "6");
        }
        _ => panic!("a fetched block route must select the detail view"),
    }
}

#[test]
fn block_route_without_fetched_data_is_pending() {
    let s = ExplorerState::new();
    let body = render_body(parse_route(b"/block/7"), &s, None);
    match body {
        BodyView::Pending(n) => assert_eq!(n, 7),
        _ => panic!("an unfetched block route must be pending"),
    }
}

#[test]
fn stale_detail_for_another_block_stays_pending() {
    let s = ExplorerState::new();
    let d = BlockDetail::new(8, &[0x12], 2, 6);
    let body = render_body(parse_route(b"/block/7"), &s, Some(&d));
    match body {
        BodyView::Pending(n) => assert_eq!(n, 7),
        _ => panic!("a stale detail must not be shown"),
    }
}

#[test]
fn unknown_route_renders_the_not_found_view() {
    let s = ExplorerState::new();
    let body = render_body(parse_route(b"/nonsense"), &s, None);
    match body {
        BodyView::NotFound => {}
        _ => panic!("an unknown route must select the not-found view"),
    }
    assert_eq!(not_found_message(), "404 Not Found");
}

#[test]
fn navigation_bar_title() {
    assert_eq!(page_title(), "HybridScan");
}
