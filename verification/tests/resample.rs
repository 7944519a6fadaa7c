use whisper_wrapper::resample::{decimate, decimation_ratio, downmix, keep_every, TARGET_RATE};

#[test]
fn target_rate_is_sixteen_kilohertz() {
    assert_eq!(TARGET_RATE, 16000);
}

#[test]
fn downmix_mono_passes_through() {
    assert_eq!(downmix(&[5, 6, 7], 1), vec![5, 6, 7]);
}

#[test]
fn downmix_stereo_keeps_the_left_channel() {
    assert_eq!(downmix(&[10, 11, 20, 21, 30, 31], 2), vec![10, 20, 30]);
}

#[test]
fn downmix_many_channels_keeps_the_first_of_each_frame() {
    let frames: Vec<i16> = vec![1, 2, 3, 4, 5, 6, 7, 8, 9, 10, 11, 12];
    assert_eq!(downmix(&frames, 4), vec![1, 5, 9]);
    assert_eq!(downmix(&frames, 3), vec![1, 4, 7, 10]);
}

#[test]
fn downmix_whole_frames_yields_one_sample_per_frame() {
    let channels: u16 = 6;
    let frames: usize = 25;
    let mut batch: Vec<i16> = Vec::new();
    let mut i: usize = 0;
    while i < frames * channels as usize {
        batch.push(i as i16);
        i += 1;
    }
    let mono = downmix(&batch, channels);
    assert_eq!(mono.len(), frames);
    let mut f: usize = 0;
    while f < frames {
        assert_eq!(mono[f], batch[f * channels as usize]);
        f += 1;
    }
}

#[test]
fn downmix_keeps_the_start_of_a_partial_last_frame() {
    assert_eq!(downmix(&[1, 2, 3, 4, 5], 2), vec![1, 3, 5]);
}

#[test]
fn downmix_of_nothing_is_nothing() {
    assert_eq!(downmix(&[], 2), Vec::<i16>::new());
}

#[test]
fn decimation_ratio_rounds_down() {
    assert_eq!(decimation_ratio(48000), 3);
    assert_eq!(decimation_ratio(44100), 2);
    assert_eq!(decimation_ratio(16000), 1);
    assert_eq!(decimation_ratio(31999), 1);
    assert_eq!(decimation_ratio(15999), 0);
    assert_eq!(decimation_ratio(0), 0);
}

#[test]
fn decimate_keeps_positions_zero_r_two_r() {
    assert_eq!(decimate(&[0, 1, 2, 3, 4, 5, 6], 3), vec![0, 3, 6]);
    assert_eq!(decimate(&[0, 1, 2, 3, 4, 5], 3), vec![0, 3]);
    assert_eq!(decimate(&[0, 1, 2, 3, 4, 5, 6, 7], 3), vec![0, 3, 6]);
}

#[test]
fn decimate_length_is_the_ceiling_of_n_over_r() {
    let mut n: usize = 0;
    while n < 40 {
        let mut ratio: usize = 1;
        while ratio < 9 {
            let samples: Vec<i16> = (0..n as i16).collect();
            let kept = decimate(&samples, ratio);
            assert_eq!(kept.len(), (n + ratio - 1) / ratio);
            let mut i: usize = 0;
            while i < kept.len() {
                assert_eq!(kept[i], samples[i * ratio]);
                i += 1;
            }
            ratio += 1;
        }
        n += 1;
    }
}

#[test]
fn decimate_by_one_keeps_everything() {
    assert_eq!(decimate(&[4, 5, 6], 1), vec![4, 5, 6]);
}

#[test]
fn decimate_by_more_than_the_length_keeps_the_first() {
    assert_eq!(decimate(&[4, 5, 6], 10), vec![4]);
    assert_eq!(keep_every(&[4, 5, 6], usize::MAX), vec![4]);
}

#[test]
fn decimate_of_nothing_is_nothing() {
    assert_eq!(decimate(&[], 3), Vec::<i16>::new());
}

#[test]
fn stereo_at_48k_through_downmix_and_decimate() {
    let l0: i16 = 100;
    let r0: i16 = -100;
    let l1: i16 = 200;
    let r1: i16 = -200;
    let l2: i16 = 300;
    let r2: i16 = -300;
    let ratio = decimation_ratio(48000);
    assert_eq!(ratio, 3);
    let mono = downmix(&[l0, r0, l1, r1, l2, r2], 2);
    assert_eq!(mono, vec![l0, l1, l2]);
    assert_eq!(decimate(&mono, ratio), vec![l0]);
}
