use fixscreen::frame::{byte_count, grow, FrameBuf};
use fixscreen::shared::{next_output, Mode, SharedState};

fn picture(w: usize, h: usize, stride: usize) -> Vec<u8> {
    let mut v: Vec<u8> = vec![0xEE; stride * h];
    for y in 0..h {
        for x in 0..w * 4 {
            v[y * stride + x] = (y * 16 + x) as u8;
        }
    }
    v
}

#[test]
fn store_packs_rows_with_gaps() {
    let mut f = FrameBuf::new();
    let src = picture(2, 3, 12);
    f.store(&src, 2, 3, 12);
    assert_eq!((f.w, f.h), (2, 3));
    let expected: Vec<u8> = vec![
        0, 1, 2, 3, 4, 5, 6, 7, 16, 17, 18, 19, 20, 21, 22, 23, 32, 33, 34, 35, 36, 37, 38, 39,
    ];
    assert_eq!(f.data, expected);
}

#[test]
fn store_without_gaps_takes_the_bytes_as_they_are() {
    let mut f = FrameBuf::new();
    let src: Vec<u8> = (0..16).collect();
    f.store(&src, 2, 2, 8);
    assert_eq!(f.data, src);
}

#[test]
fn store_accepts_a_last_row_without_its_gap() {
    let mut f = FrameBuf::new();
    let src = picture(1, 2, 8);
    f.store(&src[..12], 1, 2, 8);
    assert_eq!(f.data, vec![0, 1, 2, 3, 16, 17, 18, 19]);
}

#[test]
fn one_row_needs_no_stride() {
    let mut f = FrameBuf::new();
    f.store(&[9, 8, 7, 6], 1, 1, -64);
    assert_eq!(f.data, vec![9, 8, 7, 6]);
    f.store(&[], 0, 0, 0);
    assert_eq!((f.w, f.h), (0, 0));
    assert_eq!(f.data, vec![9, 8, 7, 6]);
}

#[test]
fn buffer_grows_and_never_shrinks() {
    let mut f = FrameBuf::new();
    f.store(&[1; 32], 2, 4, 8);
    assert_eq!(f.data.len(), 32);
    f.store(&[2; 8], 2, 1, 8);
    assert_eq!(f.data.len(), 32);
    assert_eq!(&f.data[..8], &[2; 8]);
    assert_eq!(&f.data[8..], &[1; 24]);
    f.store(&[3; 64], 4, 4, 16);
    assert_eq!(f.data.len(), 64);
}

#[test]
fn read_gives_what_was_stored() {
    let mut s = SharedState::new();
    let src = picture(3, 2, 20);
    s.publish_frame(&src, 3, 2, 20);
    let mut local: Vec<u8> = vec![0x55; 30];
    assert_eq!(s.frame.read_into(&mut local), Some((3, 2)));
    assert_eq!(&local[..12], &src[..12]);
    assert_eq!(&local[12..24], &src[20..32]);
    assert_eq!(&local[24..], &[0x55; 6]);
}

#[test]
fn read_without_a_picture_changes_nothing() {
    let f = FrameBuf::new();
    let mut local: Vec<u8> = vec![4, 5];
    assert_eq!(f.read_into(&mut local), None);
    assert_eq!(local, vec![4, 5]);
}

#[test]
fn grow_appends_zeros_only_when_needed() {
    let mut v: Vec<u8> = vec![7, 7];
    grow(&mut v, 4);
    assert_eq!(v, vec![7, 7, 0, 0]);
    grow(&mut v, 1);
    assert_eq!(v, vec![7, 7, 0, 0]);
    assert_eq!(byte_count(1920, 1080), 8_294_400);
}

#[test]
fn window_is_woken_once_until_it_draws() {
    let mut s = SharedState::new();
    let mut told = 0;
    for _ in 0..5 {
        if s.publish_frame(&[0; 4], 1, 1, 4) {
            told += 1;
        }
    }
    assert_eq!(told, 1);
    s.take_wake();
    assert!(s.publish_frame(&[0; 4], 1, 1, 4));
    assert!(!s.publish_frame(&[0; 4], 1, 1, 4));
}

#[test]
fn shared_state_at_the_start() {
    let s = SharedState::new();
    assert!(s.running);
    assert_eq!(s.mode, Mode::Dxgi);
    assert!(!s.switch_monitor && !s.wake_pending);
    assert_eq!((s.cap_x, s.cap_y, s.cap_w, s.cap_h), (0, 0, 0, 0));
    assert_eq!((s.output_index, s.output_count), (0, 1));
    assert_eq!((s.frame.w, s.frame.h, s.frame.data.len()), (0, 0, 0));
}

#[test]
fn next_monitor_walks_through_all_and_back() {
    let mut seen = vec![];
    let mut i = 1;
    for _ in 0..3 {
        i = next_output(i, 3);
        seen.push(i);
    }
    assert_eq!(seen, vec![2, 0, 1]);
    assert_eq!(next_output(0, 1), 0);
}
