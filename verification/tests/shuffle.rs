use nihav_core::frame::VideoBuffer;
use nihav_core::shuffle::{HAMShuffler, IPBShuffler, IPShuffler};

fn buf(fill: u16) -> VideoBuffer {
    VideoBuffer::new(vec![fill, fill.wrapping_add(1), fill.wrapping_add(2)])
}

fn holds(b: &VideoBuffer, fill: u16) -> bool {
    b.same_contents(&buf(fill))
}

#[test]
fn ipb_third_add_keeps_last_two() {
    let mut shuf = IPBShuffler::new();
    shuf.add_frame(buf(1));
    shuf.add_frame(buf(2));
    shuf.add_frame(buf(3));
    assert!(holds(&shuf.get_lastref().unwrap(), 3));
    assert!(holds(&shuf.get_nextref().unwrap(), 2));
    assert!(!holds(&shuf.get_lastref().unwrap(), 1));
    assert!(!holds(&shuf.get_nextref().unwrap(), 1));
}

#[test]
fn ipb_first_add_leaves_next_empty() {
    let mut shuf = IPBShuffler::new();
    shuf.add_frame(buf(9));
    assert!(holds(&shuf.get_lastref().unwrap(), 9));
    assert!(shuf.get_nextref().is_none());
    assert!(shuf.get_b_fwdref().is_none());
}

#[test]
fn ipb_fwd_and_bwd_are_aliases() {
    let mut shuf = IPBShuffler::new();
    shuf.add_frame(buf(4));
    shuf.add_frame(buf(5));
    let last = shuf.get_lastref().unwrap();
    let bwd = shuf.get_b_bwdref().unwrap();
    assert!(last.same_contents(&bwd));
    let next = shuf.get_nextref().unwrap();
    let fwd = shuf.get_b_fwdref().unwrap();
    assert!(next.same_contents(&fwd));
}

#[test]
fn ipb_clear_empties_both_slots() {
    let mut shuf = IPBShuffler::new();
    shuf.add_frame(buf(1));
    shuf.add_frame(buf(2));
    shuf.clear();
    assert!(shuf.get_lastref().is_none());
    assert!(shuf.get_nextref().is_none());
    assert!(shuf.get_b_fwdref().is_none());
    assert!(shuf.get_b_bwdref().is_none());
    shuf.add_frame(buf(6));
    assert!(holds(&shuf.get_lastref().unwrap(), 6));
    assert!(shuf.get_nextref().is_none());
}

#[test]
fn ip_keeps_only_most_recent() {
    let mut shuf = IPShuffler::new();
    assert!(shuf.get_ref().is_none());
    shuf.add_frame(buf(1));
    shuf.add_frame(buf(2));
    assert!(holds(&shuf.get_ref().unwrap(), 2));
}

#[test]
fn ip_clear_empties_slot() {
    let mut shuf = IPShuffler::new();
    shuf.add_frame(buf(1));
    shuf.clear();
    assert!(shuf.get_ref().is_none());
}

#[test]
fn ham_add_replaces_held_frame() {
    let mut shuf = HAMShuffler::new();
    assert!(shuf.get_output_frame().is_none());
    shuf.add_frame(buf(1));
    shuf.add_frame(buf(2));
    assert!(holds(&shuf.get_output_frame().unwrap(), 2));
}

#[test]
fn ham_clear_empties_slot() {
    let mut shuf = HAMShuffler::new();
    shuf.add_frame(buf(1));
    shuf.clear();
    assert!(shuf.get_output_frame().is_none());
    assert!(shuf.clone_ref().is_none());
}

#[test]
fn ham_clone_ref_twice_preserves_contents() {
    let mut shuf = HAMShuffler::new();
    shuf.add_frame(buf(7));
    let before = shuf.get_output_frame().unwrap();
    let first = shuf.clone_ref().unwrap();
    let second = shuf.clone_ref().unwrap();
    assert!(first.same_contents(&before));
    assert!(second.same_contents(&before));
    assert!(first.same_contents(&second));
    assert!(holds(&shuf.get_output_frame().unwrap(), 7));
}
