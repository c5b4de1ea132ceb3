use rpi_fft::fft_enqueue::{FftEnqueue, SampleAction, TimeoutAction, BATCH_LEN};
use rpi_fft::filter::{Filter, FilterEmpty};
use rpi_fft::plot_data::PlotData;

#[test]
fn filter_skips_repeated_values() {
    let mut f: FilterEmpty<4, i32> = FilterEmpty::new(None);
    assert!(!f.is_changed());
    assert_eq!(f.last(), None);
    f.add(1);
    assert!(f.is_changed());
    f.add(1);
    assert!(!f.is_changed());
    f.add(2);
    f.add(2);
    f.add(1);
    assert_eq!(f.last(), Some(1));
    assert!(f.is_changed());
    assert_eq!(f.pop(), Some(1));
    assert_eq!(f.pop(), Some(2));
    assert_eq!(f.pop(), Some(1));
    assert_eq!(f.pop(), None);
    // popping leaves the last value and the outcome of the last add
    assert!(f.is_changed());
    assert_eq!(f.last(), Some(1));
}

#[test]
fn filter_initial_value_and_capacity() {
    let mut f: FilterEmpty<2, u8> = FilterEmpty::new(Some(5));
    assert_eq!(f.last(), Some(5));
    assert!(f.is_changed());
    f.add(5);
    assert!(!f.is_changed());
    f.add(6);
    f.add(7);
    // capacity 2: the oldest value was dropped
    assert_eq!(f.pop(), Some(6));
    assert_eq!(f.pop(), Some(7));
    assert_eq!(f.pop(), None);
    // the held value is still 7, so an equal value is refused
    f.add(7);
    assert!(!f.is_changed());
    assert_eq!(f.pop(), None);
    assert_eq!(f.last(), Some(7));
    f.add(8);
    assert!(f.is_changed());
    assert_eq!(f.pop(), Some(8));
}

#[test]
fn filter_equal_to_held_value_after_pop() {
    let mut f: FilterEmpty<4, i32> = FilterEmpty::new(Some(5));
    assert_eq!(f.pop(), Some(5));
    f.add(5);
    assert!(!f.is_changed());
    assert_eq!(f.pop(), None);
    assert_eq!(f.last(), Some(5));
}

#[test]
fn filter_without_places() {
    let mut f: FilterEmpty<0, u8> = FilterEmpty::new(Some(1));
    assert_eq!(f.pop(), None);
    f.add(2);
    assert!(f.is_changed());
    assert_eq!(f.last(), Some(2));
    assert_eq!(f.pop(), None);
    f.add(2);
    assert!(!f.is_changed());
}

#[test]
fn plot_data_keeps_newest() {
    let mut d = PlotData::new(3, [0u32, 0u32]);
    assert_eq!(d.len(), 3);
    assert!(d.is_changed());
    assert_eq!(d.xy(), vec![[0, 0]; 3]);
    assert!(!d.is_changed());
    d.add([1, 10]);
    d.push([2, 20]);
    assert!(d.is_changed());
    assert_eq!(d.xy(), vec![[0, 0], [1, 10], [2, 20]]);
    assert!(!d.is_changed());
    d.update(0, [9, 9]);
    assert_eq!(d.get(0), [9, 9]);
    assert!(d.is_changed());
    d.set_len(1);
    assert_eq!(d.len(), 3);
    d.add([3, 30]);
    assert_eq!(d.xy(), vec![[3, 30]]);
    d.clear();
    assert_eq!(d.len(), 0);
    assert!(d.is_changed());
    d.set_len(0);
    d.add([4, 40]);
    assert_eq!(d.len(), 0);
}

#[test]
fn enqueue_ignores_other_channels_and_pause() {
    let mut q = FftEnqueue::new(524_288);
    let none = SampleAction { forward: None, batch: None, run_fft: false };
    assert_eq!(q.on_point("/App/UdpClient/Sensor1", 5, 2, false), none);
    assert_eq!(q.on_point("/App/UdpClient/Sensor2", 5, 2, true), none);
    let one = q.on_point("/App/UdpClient/Sensor2", 5, 2, false);
    assert_eq!(one, SampleAction { forward: Some(5), batch: None, run_fft: false });
    // the value is truncated to 16 bits
    let two = q.on_point("/App/UdpClient/Sensor12", 0x1_0007, 12, false);
    assert_eq!(two.forward, Some(7));
}

#[test]
fn enqueue_batches_and_fft() {
    // FFT window of 2048 samples: an FFT is due every 64 samples, so after each batch
    let mut q = FftEnqueue::new(2048);
    let mut batches = vec![];
    let mut ffts = 0;
    for i in 0..(2 * BATCH_LEN + 3) {
        let a = q.on_point("ch0", i as i64, 0, false);
        assert_eq!(a.forward, Some(i as u16));
        if let Some(b) = a.batch {
            assert_eq!(b.len(), BATCH_LEN);
            batches.push(b);
        }
        if a.run_fft {
            ffts += 1;
        }
    }
    assert_eq!(batches.len(), 2);
    assert_eq!(ffts, 2);
    let flat: Vec<u16> = batches.concat();
    assert_eq!(flat, (0..(2 * BATCH_LEN) as u16).collect::<Vec<_>>());
}

#[test]
fn enqueue_fft_after_enough_batches() {
    // FFT window of 65536 samples: an FFT is due every 2048 samples, every fourth batch
    let mut q = FftEnqueue::new(65_536);
    let mut due = vec![];
    for i in 0..(8 * BATCH_LEN) {
        let a = q.on_point("s1", 1, 1, false);
        if a.batch.is_some() {
            due.push((i, a.run_fft));
        }
    }
    let flags: Vec<bool> = due.iter().map(|(_, f)| *f).collect();
    assert_eq!(flags, vec![false, false, false, true, false, false, false, true]);
}

#[test]
fn enqueue_timeouts() {
    let mut q = FftEnqueue::new(2048);
    assert_eq!(q.on_timeout(false), TimeoutAction::Wait);
    assert_eq!(q.on_timeout(true), TimeoutAction::NoValues);
    q.on_point("c3", 1, 3, false);
    assert_eq!(q.on_timeout(false), TimeoutAction::Wait);
    assert_eq!(q.on_timeout(true), TimeoutAction::Restart);
    assert_eq!(q.on_timeout(true), TimeoutAction::NoValues);
}
