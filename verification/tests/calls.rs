//! The calls that the handle builds and the meaning of what comes back, on
//! chosen values.

use dvdcss::lifecycle::{replay, Operation, State};
use dvdcss::native::interpret;
use dvdcss::{Block, SeekOptions, DVD};

#[test]
fn seek_call_carries_handle_offset_and_flags() {
    let dvd = DVD::new(42).unwrap();
    let call = dvd.seek(16, SeekOptions::Mpeg);
    assert_eq!((call.handle(), call.blocks(), call.flags()), (42, 16, 1));
    let call = dvd.seek(0, SeekOptions::NoFlags);
    assert_eq!((call.handle(), call.blocks(), call.flags()), (42, 0, 0));
    let call = dvd.seek(2_147_483_647, SeekOptions::Key);
    assert_eq!((call.handle(), call.blocks(), call.flags()), (42, 2_147_483_647, 2));
}

#[test]
fn checked_seek_admits_offsets_up_to_the_signed_maximum() {
    let dvd = DVD::new(42).unwrap();
    let call = dvd.checked_seek(16, SeekOptions::Key).unwrap();
    assert_eq!((call.handle(), call.blocks(), call.flags()), (42, 16, 2));
    let call = dvd.checked_seek(2_147_483_647, SeekOptions::NoFlags).unwrap();
    assert_eq!(call.blocks(), 2_147_483_647);
    assert!(dvd.checked_seek(2_147_483_648, SeekOptions::NoFlags).is_none());
    assert!(dvd.checked_seek(4_294_967_280, SeekOptions::Mpeg).is_none());
    assert!(dvd.checked_seek(4_294_967_295, SeekOptions::Key).is_none());
}

#[test]
fn read_call_asks_for_one_block_per_slot() {
    let dvd = DVD::new(7).unwrap();
    let none: Vec<Block> = Vec::new();
    let one: Vec<Block> = vec![[0u8; 2048]; 1];
    let five: Vec<Block> = vec![[0u8; 2048]; 5];
    let call = dvd.read(&none, false);
    assert_eq!((call.handle(), call.blocks(), call.flags()), (7, 0, 0));
    let call = dvd.read(&one, true);
    assert_eq!((call.handle(), call.blocks(), call.flags()), (7, 1, 1));
    let call = dvd.read(&five, false);
    assert_eq!((call.handle(), call.blocks(), call.flags()), (7, 5, 0));
    let call = dvd.checked_read(&five, true).unwrap();
    assert_eq!((call.handle(), call.blocks(), call.flags()), (7, 5, 1));
}

#[test]
fn decrypt_maps_to_flag_one_and_raw_to_flag_zero() {
    let dvd = DVD::new(7).unwrap();
    let buffer: Vec<Block> = vec![[0u8; 2048]; 2];
    let raw = dvd.read(&buffer, false);
    let decrypted = dvd.read(&buffer, true);
    assert_eq!(raw.flags(), 0);
    assert_eq!(decrypted.flags(), 1);
    assert_ne!(raw.flags(), decrypted.flags());
    assert_eq!(dvd.read(&buffer, true).flags(), decrypted.flags());
}

#[test]
fn queries_and_close_carry_the_handle() {
    let dvd = DVD::new(9).unwrap();
    assert_eq!(dvd.is_scrambled().handle(), 9);
    assert_eq!(dvd.latest_error().handle(), 9);
    assert_eq!(dvd.close().handle(), 9);
}

#[test]
fn counts_are_split_from_failure() {
    assert_eq!(interpret(0), Ok(0));
    assert_eq!(interpret(1), Ok(1));
    assert_eq!(interpret(16), Ok(16));
    assert_eq!(interpret(i32::MAX), Ok(2_147_483_647));
    assert_eq!(interpret(-1), Err(()));
    assert_eq!(interpret(i32::MIN), Err(()));
}

#[test]
fn seek_and_read_results_follow_the_native_integer() {
    let dvd = DVD::new(1).unwrap();
    let seek = dvd.seek(16, SeekOptions::NoFlags);
    assert_eq!(seek.complete(16), Ok(16));
    assert_eq!(seek.complete(-1), Err(()));
    let buffer: Vec<Block> = vec![[0u8; 2048]; 4];
    let read = dvd.read(&buffer, true);
    assert_eq!(read.complete(4), Ok(4));
    assert_eq!(read.complete(3), Ok(3));
    assert_eq!(read.complete(0), Ok(0));
    assert_eq!(read.complete(-5), Err(()));
}

#[test]
fn scrambled_answer_outside_zero_and_one_is_undefined() {
    let dvd = DVD::new(1).unwrap();
    let query = dvd.is_scrambled();
    assert_eq!(query.check(0), Some(false));
    assert_eq!(query.check(1), Some(true));
    assert_eq!(query.check(2), None);
    assert_eq!(query.check(-1), None);
    assert_eq!(query.check(i32::MAX), None);
    assert!(!query.complete(0));
    assert!(query.complete(1));
}

#[test]
fn close_status_zero_alone_reports_release() {
    assert!(DVD::new(1).unwrap().close().complete(0));
    assert!(!DVD::new(1).unwrap().close().complete(-1));
    assert!(!DVD::new(1).unwrap().close().complete(1));
}

#[test]
fn seek_modes_have_three_flag_words() {
    assert_eq!(SeekOptions::NoFlags.bits(), 0);
    assert_eq!(SeekOptions::Mpeg.bits(), 1);
    assert_eq!(SeekOptions::Key.bits(), 2);
    assert_eq!(SeekOptions::from_bits(0), Some(SeekOptions::NoFlags));
    assert_eq!(SeekOptions::from_bits(1), Some(SeekOptions::Mpeg));
    assert_eq!(SeekOptions::from_bits(2), Some(SeekOptions::Key));
    assert_eq!(SeekOptions::from_bits(3), None);
    assert_eq!(SeekOptions::from_bits(-1), None);
}

#[test]
fn lifecycle_steps() {
    let open = Operation::Construct { handle: 5 };
    let absent = Operation::Construct { handle: 0 };
    assert_eq!(State::Uninitialized.step(open), Some(State::Open));
    assert_eq!(State::Uninitialized.step(absent), Some(State::Uninitialized));
    assert_eq!(State::Uninitialized.step(Operation::Seek), None);
    assert_eq!(State::Uninitialized.step(Operation::Destroy), None);
    assert_eq!(State::Open.step(Operation::Seek), Some(State::Open));
    assert_eq!(State::Open.step(Operation::Read), Some(State::Open));
    assert_eq!(State::Open.step(Operation::IsScrambled), Some(State::Open));
    assert_eq!(State::Open.step(Operation::LatestError), Some(State::Open));
    assert_eq!(State::Open.step(Operation::Destroy), Some(State::Closed));
    assert_eq!(State::Open.step(open), None);
    assert_eq!(State::Closed.step(Operation::Seek), None);
    assert_eq!(State::Closed.step(Operation::Destroy), None);
    assert_eq!(State::Closed.step(open), None);
}

#[test]
fn a_whole_life_has_one_teardown_and_it_is_last() {
    let life = vec![
        Operation::Construct { handle: 5 },
        Operation::Seek,
        Operation::Read,
        Operation::LatestError,
        Operation::Destroy,
    ];
    assert_eq!(replay(&life), Some(State::Closed));
    let count = life.iter().filter(|op| **op == Operation::Destroy).count();
    assert_eq!(count, 1);
    assert_eq!(life.last(), Some(&Operation::Destroy));
}

#[test]
fn nothing_is_admitted_after_teardown() {
    let ops = [
        Operation::Seek,
        Operation::Read,
        Operation::IsScrambled,
        Operation::LatestError,
        Operation::Destroy,
        Operation::Construct { handle: 5 },
    ];
    for op in ops {
        let history = vec![Operation::Construct { handle: 5 }, Operation::Destroy, op];
        assert_eq!(replay(&history), None);
    }
}

#[test]
fn a_failed_construction_acquires_nothing() {
    let history = vec![Operation::Construct { handle: 0 }];
    assert_eq!(replay(&history), Some(State::Uninitialized));
    let retried = vec![Operation::Construct { handle: 0 }, Operation::Construct { handle: 8 }];
    assert_eq!(replay(&retried), Some(State::Open));
    let used = vec![Operation::Construct { handle: 0 }, Operation::Read];
    assert_eq!(replay(&used), None);
    assert_eq!(replay(&Vec::new()), Some(State::Uninitialized));
}
