use doxy_rewrite::pipeline::{transform, Config, Mode};

fn whole_file() -> Config {
    Config { mode: Mode::WholeFile, symbol_prefixes: vec![String::from("NRF_")] }
}

#[test]
fn structural_deletion_scenario() {
    let s = "Before text.\n@addtogroup nrf_group\nMore group stuff\n\nAfter text.\n";
    let t = transform(s, &whole_file());
    assert_eq!(t.text, "Before text.\nAfter text.\n");
}

#[test]
fn group_block_with_comment_slashes() {
    let s = "keep this\n/// @addtogroup nrf_socket\n/// still in the block\n\nkept too\n";
    let t = transform(s, &whole_file());
    assert_eq!(t.text, "keep this\nkept too\n");
}

#[test]
fn group_block_to_end_of_input() {
    // Without a following empty line, the block runs to the end of the text.
    let s = "intro\n@addtogroup grp\ntail line";
    let t = transform(s, &whole_file());
    assert_eq!(t.text, "intro\n");
}

#[test]
fn blank_line_with_spaces_does_not_end_block() {
    let s = "a\n@addtogroup g\nx\n  \ny\n\nb\n";
    let t = transform(s, &whole_file());
    assert_eq!(t.text, "a\nb\n");
}

#[test]
fn two_group_blocks_deleted() {
    let s = "@addtogroup one\nx\n\nmiddle\n@addtogroup two\ny\n\nend\n";
    let t = transform(s, &whole_file());
    assert_eq!(t.text, "middle\nend\n");
}

#[test]
fn addtogroup_mid_line_is_kept() {
    let s = "text mentions @addtogroup inline\nnext line\n";
    let t = transform(s, &whole_file());
    assert_eq!(t.text, s);
}

#[test]
fn per_comment_mode_keeps_group_lines() {
    let s = "@addtogroup nrf_group\ncontent\n\nrest\n";
    let per = Config { mode: Mode::PerComment, symbol_prefixes: vec![String::from("NRF_")] };
    let t = transform(s, &per);
    assert_eq!(t.text, s);
}
