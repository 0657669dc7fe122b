use rover::lidar::{
    Data, Frame, Lidar, LidarOrder, PinLevel, Point, POLL_MS, RANGE_CEILING, SAMPLE_COUNT, SPINUP_MS,
};

fn point(angle: u16, distance: u16) -> Point {
    Point { angle, distance }
}

#[test]
fn frame_keeps_its_ranges() {
    let frame = Frame::new(1, 2, 3);
    assert_eq!(frame.get_range_left(), 1);
    assert_eq!(frame.get_range_front(), 2);
    assert_eq!(frame.get_range_right(), 3);
}

#[test]
fn new_data_is_all_zero() {
    let data = Data::new();
    assert_eq!(data.samples.len(), SAMPLE_COUNT);
    assert!(data.samples.iter().all(|sample| *sample == 0));
    assert_eq!(data.get_range_left(), 0);
    assert_eq!(data.get_range_front(), 0);
    assert_eq!(data.get_range_right(), 0);
}

#[test]
fn update_scatters_by_whole_degrees() {
    let mut data = Data::new();
    data.update(&[point(0, 11), point(99, 12), point(100, 13), point(35_999, 14), point(12_345, 15)]);
    assert_eq!(data.samples[0], 12);
    assert_eq!(data.samples[1], 13);
    assert_eq!(data.samples[359], 14);
    assert_eq!(data.samples[123], 15);
    assert_eq!(data.samples.iter().filter(|sample| **sample != 0).count(), 4);
}

#[test]
fn update_folds_angles_past_the_turn_into_the_last_bucket() {
    let mut data = Data::new();
    data.update(&[point(36_000, 7), point(65_535, 9)]);
    assert_eq!(data.samples[359], 9);
    data.update(&[point(36_000, 7)]);
    assert_eq!(data.samples[359], 7);
    assert_eq!(data.samples.iter().filter(|sample| **sample != 0).count(), 1);
}

#[test]
fn update_with_no_points_changes_nothing() {
    let mut data = Data::new();
    data.update(&[point(4_500, 321)]);
    data.update(&[]);
    assert_eq!(data.samples[45], 321);
}

#[test]
fn ranges_are_the_nearest_sample_of_their_sector() {
    let mut data = Data::new();
    for sample in data.samples.iter_mut() {
        *sample = 5000;
    }
    data.samples[224] = 900;
    data.samples[314] = 1000;
    data.samples[315] = 800;
    data.samples[44] = 850;
    data.samples[45] = 700;
    data.samples[134] = 750;
    data.samples[135] = 1;
    data.samples[223] = 2;
    assert_eq!(data.get_range_left(), 900);
    assert_eq!(data.get_range_front(), 800);
    assert_eq!(data.get_range_right(), 700);
    data.samples[0] = 300;
    assert_eq!(data.get_range_front(), 300);
    data.samples[359] = 200;
    assert_eq!(data.get_range_front(), 200);
    let frame = data.get_frame();
    assert_eq!(frame.get_range_left(), 900);
    assert_eq!(frame.get_range_front(), 200);
    assert_eq!(frame.get_range_right(), 700);
}

#[test]
fn ranges_stop_at_the_ceiling() {
    assert_eq!(RANGE_CEILING, 12000);
    let mut data = Data::new();
    for sample in data.samples.iter_mut() {
        *sample = 60000;
    }
    assert_eq!(data.get_range_left(), 12000);
    assert_eq!(data.get_range_front(), 12000);
    assert_eq!(data.get_range_right(), 12000);
    data.samples[270] = 11999;
    assert_eq!(data.get_range_left(), 11999);
}

#[test]
fn reset_clears_every_bucket() {
    let mut data = Data::new();
    data.update(&[point(0, 5), point(18_000, 6), point(35_900, 7)]);
    data.reset();
    assert!(data.samples.iter().all(|sample| *sample == 0));
}

#[test]
fn lidar_starts_off_and_parks() {
    let mut lidar = Lidar::new();
    assert!(!lidar.is_running());
    assert!(!lidar.is_synced());
    assert_eq!(lidar.step(), LidarOrder::Sleep(POLL_MS));
    assert_eq!(lidar.step(), LidarOrder::Sleep(100));
}

fn batch_of(distance: u16) -> Vec<Point> {
    (0..360u16).map(|degree| point(degree * 100, distance)).collect()
}

fn spun_up() -> Lidar {
    let mut lidar = Lidar::new();
    assert_eq!(lidar.set_power(true), PinLevel::Low);
    assert_eq!(lidar.step(), LidarOrder::Sleep(SPINUP_MS));
    assert_eq!(lidar.step(), LidarOrder::Read);
    lidar
}

#[test]
fn lidar_spins_up_before_it_reads() {
    let mut lidar = Lidar::new();
    assert_eq!(lidar.step(), LidarOrder::Sleep(100));
    assert_eq!(lidar.set_power_on(), PinLevel::Low);
    assert!(lidar.is_running());
    assert_eq!(lidar.step(), LidarOrder::Sleep(SPINUP_MS));
    assert_eq!(SPINUP_MS, 6000);
    assert_eq!(lidar.step(), LidarOrder::Read);
    assert_eq!(lidar.step(), LidarOrder::Read);
    assert!(!lidar.is_synced());
}

#[test]
fn lidar_spins_up_even_when_switched_on_before_the_first_step() {
    let mut lidar = Lidar::new();
    lidar.set_power_on();
    assert_eq!(lidar.step(), LidarOrder::Sleep(6000));
    assert_eq!(lidar.step(), LidarOrder::Read);
}

#[test]
fn lidar_syncs_on_the_first_batch() {
    let mut lidar = spun_up();
    assert!(!lidar.is_synced());
    let mut batch = batch_of(4000);
    batch.push(point(27_000, 650));
    batch.push(point(0, 1200));
    batch.push(point(9_000, 330));
    lidar.batch(&batch);
    assert!(lidar.is_synced());
    assert_eq!(lidar.get_range_left(), 650);
    assert_eq!(lidar.get_range_front(), 1200);
    assert_eq!(lidar.get_range_right(), 330);
    let frame = lidar.get_frame();
    assert_eq!(
        (frame.get_range_left(), frame.get_range_front(), frame.get_range_right()),
        (650, 1200, 330)
    );
}

#[test]
fn lidar_drops_batches_before_the_spin_up_is_over() {
    let mut lidar = Lidar::new();
    lidar.batch(&batch_of(4000));
    assert!(!lidar.is_synced());
    assert_eq!(lidar.get_range_front(), 0);
    lidar.set_power_on();
    lidar.batch(&batch_of(4000));
    assert!(!lidar.is_synced());
    assert_eq!(lidar.step(), LidarOrder::Sleep(6000));
    lidar.batch(&batch_of(4000));
    assert!(!lidar.is_synced());
    assert_eq!(lidar.get_range_front(), 0);
    assert_eq!(lidar.step(), LidarOrder::Read);
    lidar.batch(&batch_of(4000));
    assert!(lidar.is_synced());
    assert_eq!(lidar.get_range_front(), 4000);
}

#[test]
fn lidar_power_off_forgets_samples_and_sync_at_once() {
    let mut lidar = spun_up();
    lidar.batch(&batch_of(4000));
    assert_eq!(lidar.get_range_front(), 4000);
    assert_eq!(lidar.set_power_off(), PinLevel::High);
    assert!(!lidar.is_running());
    assert!(!lidar.is_synced());
    assert_eq!(lidar.get_range_front(), 0);
    assert_eq!(lidar.get_range_left(), 0);
    assert_eq!(lidar.get_range_right(), 0);
    assert_eq!(lidar.step(), LidarOrder::Sleep(100));
    assert_eq!(lidar.set_power(true), PinLevel::Low);
    assert_eq!(lidar.step(), LidarOrder::Sleep(6000));
    assert_eq!(lidar.step(), LidarOrder::Read);
    assert_eq!(lidar.set_power(false), PinLevel::High);
    assert_eq!(lidar.step(), LidarOrder::Sleep(100));
}

#[test]
fn every_power_on_resets_and_waits_for_the_spin_up() {
    let mut lidar = spun_up();
    lidar.batch(&batch_of(4000));
    lidar.set_power_off();
    lidar.set_power_on();
    assert!(!lidar.is_synced());
    assert_eq!(lidar.get_range_front(), 0);
    lidar.batch(&batch_of(900));
    assert!(!lidar.is_synced());
    assert_eq!(lidar.step(), LidarOrder::Sleep(6000));
    assert_eq!(lidar.step(), LidarOrder::Read);
    assert!(!lidar.is_synced());
    lidar.batch(&batch_of(900));
    assert!(lidar.is_synced());
    assert_eq!(lidar.get_range_front(), 900);
}

#[test]
fn switching_on_while_on_changes_nothing() {
    let mut lidar = spun_up();
    lidar.batch(&batch_of(4000));
    assert_eq!(lidar.set_power_on(), PinLevel::Low);
    assert!(lidar.is_synced());
    assert_eq!(lidar.get_range_front(), 4000);
    assert_eq!(lidar.step(), LidarOrder::Read);
}

#[test]
fn a_power_switch_during_the_spin_up_starts_the_wait_again() {
    let mut lidar = Lidar::new();
    lidar.set_power_on();
    assert_eq!(lidar.step(), LidarOrder::Sleep(6000));
    lidar.set_power_off();
    lidar.set_power_on();
    assert_eq!(lidar.step(), LidarOrder::Sleep(6000));
    assert_eq!(lidar.step(), LidarOrder::Read);
}
