use tutorial::adc::{
    block_poll_ticks, convert_to_millivolts, estimated_vdda_mv, on_dma_read, summarize_block,
    vrefint_start_ticks, DmaStep, Overrun, SampleAverager, ADC_MAX, DMA_BUF_SIZE, RING_SIZE,
    VREFINT_MV,
};

#[test]
fn summarize_small_block() {
    let r = summarize_block(&[1, 2, 3, 4]);
    assert_eq!(r.n, 4);
    assert_eq!(r.avg_raw, 2);
    assert_eq!(r.head, vec![1, 2, 3, 4]);
}

#[test]
fn summarize_keeps_ten_leading_samples() {
    let data: Vec<u16> = (0..12).collect();
    let r = summarize_block(&data);
    assert_eq!(r.n, 12);
    assert_eq!(r.avg_raw, 5); // 66 / 12
    assert_eq!(r.head, (0..10).collect::<Vec<u16>>());
}

#[test]
fn summarize_full_scale_block() {
    let data = [4095u16; DMA_BUF_SIZE];
    let r = summarize_block(&data);
    assert_eq!(r.n, DMA_BUF_SIZE);
    assert_eq!(r.avg_raw as u32, ADC_MAX);
    assert_eq!(r.head.len(), 10);
}

#[test]
fn mean_lies_between_smallest_and_largest_sample() {
    let data = [100u16, 250, 4000, 7, 3999];
    let r = summarize_block(&data);
    assert!(7 <= r.avg_raw && r.avg_raw <= 4000);
    assert_eq!(r.avg_raw, 1671); // 8356 / 5
}

#[test]
fn summarize_largest_samples_without_overflow() {
    let data = [u16::MAX; DMA_BUF_SIZE];
    let r = summarize_block(&data);
    assert_eq!(r.avg_raw, u16::MAX);
}

#[test]
fn dma_read_reports_first_n_samples() {
    let mut out = [0u16; DMA_BUF_SIZE];
    out[0] = 10;
    out[1] = 20;
    out[2] = 30;
    out[3] = 1000;
    match on_dma_read(Ok(3), &out) {
        DmaStep::Report(r) => {
            assert_eq!(r.n, 3);
            assert_eq!(r.avg_raw, 20);
            assert_eq!(r.head, vec![10, 20, 30]);
        }
        DmaStep::Restart => panic!("expected a report"),
    }
}

#[test]
fn dma_overrun_restarts() {
    let out = [0u16; DMA_BUF_SIZE];
    assert!(matches!(on_dma_read(Err(Overrun), &out), DmaStep::Restart));
}

#[test]
fn ring_is_twice_a_block() {
    assert_eq!(RING_SIZE / 2, DMA_BUF_SIZE);
}

#[test]
fn averager_means_ten_samples() {
    let mut a = SampleAverager::new(10);
    let mut k = 0u16;
    while !a.is_complete() {
        a.add_sample(1000 + k);
        k += 1;
    }
    assert_eq!(k, 10);
    assert_eq!(a.average(), 1004); // 10045 / 10
}

#[test]
fn averager_rounds_down() {
    let mut a = SampleAverager::new(3);
    a.add_sample(10);
    a.add_sample(20);
    assert!(!a.is_complete());
    a.add_sample(31);
    assert!(a.is_complete());
    assert_eq!(a.average(), 20);
}

#[test]
fn averager_of_255_largest_samples() {
    let mut a = SampleAverager::new(255);
    for _ in 0..255 {
        a.add_sample(u16::MAX);
    }
    assert_eq!(a.average(), u16::MAX);
}

#[test]
fn zero_samples_are_complete_at_once() {
    let a = SampleAverager::new(0);
    assert!(a.is_complete());
}

#[test]
fn reference_sample_converts_to_reference_voltage() {
    assert_eq!(convert_to_millivolts(1500, 1500), VREFINT_MV);
    assert_eq!(convert_to_millivolts(1, 1), 1210);
    assert_eq!(convert_to_millivolts(u16::MAX, u16::MAX), 1210);
}

#[test]
fn conversion_examples() {
    assert_eq!(convert_to_millivolts(0, 1500), 0);
    assert_eq!(convert_to_millivolts(750, 1500), 605);
    assert_eq!(convert_to_millivolts(u16::MAX, 1), 65535 * 1210);
    assert!(convert_to_millivolts(700, 1500) <= convert_to_millivolts(701, 1500));
}

#[test]
fn vdda_is_full_scale_in_millivolts() {
    assert_eq!(estimated_vdda_mv(1500), 3303);
    assert_eq!(estimated_vdda_mv(1500), convert_to_millivolts(4095, 1500));
}

#[test]
fn adc_delays_in_ticks() {
    assert_eq!(block_poll_ticks(), 3277);
    assert_eq!(vrefint_start_ticks(), 1);
}
