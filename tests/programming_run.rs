use x7dap::{Action, Error, Phase, Programming, Step};

fn msb_bits_of_word(w: u32) -> Vec<bool> {
    (0..32).map(|i| (w >> (31 - i)) & 1 == 1).collect()
}

const READY: u32 = (1 << 11) | (1 << 12);
const PROGRAMMED: u32 = (1 << 11) | (1 << 12) | (1 << 13) | (1 << 14);

/// Runs `m` against a device whose status reads give `pre` then `post`,
/// recording every step asked for.
fn run(m: &mut Programming, pre: u32, post: u32) -> (Vec<Vec<Step>>, Result<(), Error>) {
    let mut batches = Vec::new();
    let mut read: Vec<bool> = Vec::new();
    let mut reads = vec![msb_bits_of_word(pre), msb_bits_of_word(post)].into_iter();
    loop {
        match m.next(&read) {
            Action::Run(steps) => {
                read = if steps.iter().any(|s| matches!(s, Step::ReadDr(_))) {
                    reads.next().unwrap()
                } else {
                    Vec::new()
                };
                batches.push(steps);
            }
            Action::Finish(r) => return (batches, r),
        }
    }
}

fn is_write(s: &Step) -> bool {
    matches!(s, Step::WriteIr(_) | Step::WriteDr(_) | Step::WriteDrProgress(_))
}

#[test]
fn successful_run() {
    let mut m = Programming::new(&[0x01, 0x02, 0x03]);
    assert!(matches!(m.current_phase(), Phase::Start));
    let (batches, r) = run(&mut m, READY, PROGRAMMED);
    assert_eq!(r, Ok(()));
    assert_eq!(batches.len(), 4);
    assert_eq!(batches[0].len(), 7);
    assert_eq!(batches[1].len(), 11);
    assert_eq!(batches[2].len(), 7);
    assert_eq!(batches[3].len(), 1);
    assert!(matches!(batches[3][0], Step::Reset));
    assert!(matches!(m.current_phase(), Phase::Finished(Ok(()))));
    assert!(matches!(m.next(&[]), Action::Finish(Ok(()))));
}

#[test]
fn failed_precheck_writes_nothing_more() {
    let mut m = Programming::new(&[0xFF; 16]);
    let (batches, r) = run(&mut m, 1 << 12, PROGRAMMED);
    assert_eq!(r, Err(Error::BadStatus));
    assert_eq!(batches.len(), 1);
    assert_eq!(batches[0].len(), 7);
    assert_eq!(batches[0].iter().filter(|s| is_write(s)).count(), 3);
    assert!(!batches[0].iter().any(|s| matches!(s, Step::WriteDrProgress(_) | Step::SleepMs(_))));
}

#[test]
fn crc_error_fails_postcheck() {
    let mut m = Programming::new(&[0x12, 0x34]);
    let (batches, r) = run(&mut m, READY, PROGRAMMED | 1);
    assert_eq!(r, Err(Error::BadStatus));
    assert_eq!(batches.len(), 3);
    assert!(matches!(m.current_phase(), Phase::Finished(Err(Error::BadStatus))));
}

#[test]
fn empty_bitstream_runs_every_step() {
    let mut m = Programming::new(&[]);
    let (batches, r) = run(&mut m, READY, PROGRAMMED);
    assert_eq!(r, Ok(()));
    assert_eq!(batches.len(), 4);
    assert_eq!(batches[1].len(), 11);
    match &batches[1][6] {
        Step::WriteDrProgress(b) => assert!(b.is_empty()),
        _ => panic!("expected an empty shift"),
    }
    assert!(matches!(batches[1][3], Step::SleepMs(20)));
    assert!(matches!(batches[1][9], Step::Idle(2000)));
}
