use hadeda::extractor::{Recorded, SpectralExtractor};
use hadeda::spectrum::{Coefficient, SpectralFrame, Spectrum, BIN_COUNT};

fn transform(window: &[u32; 512]) -> Spectrum {
    let mut samples = [0f32; 512];
    for (sample, bits) in samples.iter_mut().zip(window.iter()) {
        *sample = f32::from_bits(*bits);
    }
    let raw = microfft::real::rfft_512(&mut samples);
    let mut packed = [Coefficient { re: 0, im: 0 }; 256];
    for (slot, coefficient) in packed.iter_mut().zip(raw.iter()) {
        *slot = Coefficient { re: coefficient.re.to_bits(), im: coefficient.im.to_bits() };
    }
    Spectrum::from_packed(packed)
}

fn magnitudes(spectrum: &Spectrum) -> [u32; 256] {
    spectrum.magnitudes(|coefficient: Coefficient| {
        let re = f32::from_bits(coefficient.re);
        let im = f32::from_bits(coefficient.im);
        (re * re + im * im) as u32
    })
}

fn window_of(signal: impl Fn(usize) -> f32) -> [u32; 512] {
    let mut window = [0u32; 512];
    for (index, slot) in window.iter_mut().enumerate() {
        *slot = signal(index).to_bits();
    }
    window
}

#[test]
fn bin_count_is_half_the_window() {
    assert_eq!(BIN_COUNT, 256);
}

#[test]
fn from_packed_clears_only_the_dc_imaginary_part() {
    let mut packed = [Coefficient { re: 0, im: 0 }; 256];
    for (index, slot) in packed.iter_mut().enumerate() {
        *slot = Coefficient { re: 10 + index as u32, im: 500 + index as u32 };
    }
    let spectrum = Spectrum::from_packed(packed);
    assert_eq!(spectrum.bins()[0], Coefficient { re: 10, im: 0 });
    assert_eq!(spectrum.nyquist(), 500);
    for index in 1..256 {
        assert_eq!(spectrum.bins()[index], packed[index]);
        assert_eq!(spectrum.bin(index), Some(packed[index]));
    }
    assert_eq!(spectrum.bin(0), Some(Coefficient { re: 10, im: 0 }));
    assert_eq!(spectrum.bin(256), None);
}

#[test]
fn cleared_imaginary_part_is_positive_zero() {
    let packed = [Coefficient { re: 1.5f32.to_bits(), im: 7.25f32.to_bits() }; 256];
    let spectrum = Spectrum::from_packed(packed);
    let dc = spectrum.bins()[0];
    assert_eq!(f32::from_bits(dc.im), 0.0);
    assert!(f32::from_bits(dc.im).is_sign_positive());
    assert_eq!(f32::from_bits(dc.re), 1.5);
    assert_eq!(f32::from_bits(spectrum.nyquist()), 7.25);
}

#[test]
fn nyquist_tone_does_not_leak_into_the_dc_magnitude() {
    // +1, -1, +1, ... has no DC component; all of it sits at the Nyquist
    // frequency, which the transform packs into the DC bin.
    let window = window_of(|index| if index % 2 == 0 { 1.0 } else { -1.0 });
    let spectrum = transform(&window);
    assert_eq!(f32::from_bits(spectrum.nyquist()), 512.0);
    let values = magnitudes(&spectrum);
    assert_eq!(values[0], 0);
    assert!(values.iter().all(|&value| value == 0));
}

#[test]
fn constant_input_shows_in_the_dc_bin_only() {
    let window = window_of(|_| 1.0);
    let spectrum = transform(&window);
    let values = magnitudes(&spectrum);
    assert_eq!(values[0], 512 * 512);
    assert!(values[1..].iter().all(|&value| value == 0));
    assert_eq!(f32::from_bits(spectrum.nyquist()), 0.0);
}

#[test]
fn tone_shows_in_its_own_bin() {
    let window = window_of(|index| {
        (2.0 * std::f64::consts::PI * 5.0 * index as f64 / 512.0).cos() as f32
    });
    let values = magnitudes(&transform(&window));
    // a unit cosine of 512 samples has magnitude 256 in its bin
    assert!(values[5] > 65_000 && values[5] < 66_000, "bin 5 holds {}", values[5]);
    for (index, &value) in values.iter().enumerate() {
        if index != 5 {
            assert!(value < 2, "bin {} holds {}", index, value);
        }
    }
}

#[test]
fn transformed_window_becomes_the_frame() {
    let mut extractor = SpectralExtractor::new();
    let mut outcome = Recorded::Busy;
    for index in 0..512usize {
        let sample = (2.0 * std::f64::consts::PI * 255.0 * index as f64 / 512.0).cos() as f32;
        outcome = extractor.record(sample.to_bits());
    }
    assert_eq!(outcome, Recorded::TransformDue);
    let values = magnitudes(&transform(extractor.window()));
    let reported = extractor.complete(values).unwrap();
    // the window closed on slot 511, which reports bin 255: the tone's bin
    assert_eq!(reported, values[255]);
    assert!(reported > 65_000 && reported < 66_000, "bin 255 holds {}", reported);
    assert_eq!(extractor.frame().bin(255), Some(reported));
    assert_eq!(extractor.record(0), Recorded::Reported(values[0]));
}

#[test]
fn frame_starts_zeroed_and_is_overwritten_as_a_whole() {
    let mut frame = SpectralFrame::new();
    assert_eq!(frame.bin(0), Some(0));
    assert_eq!(frame.bin(255), Some(0));
    assert_eq!(frame.bin(256), None);
    let mut values = [0u32; 256];
    for (index, slot) in values.iter_mut().enumerate() {
        *slot = 3 * index as u32 + 1;
    }
    frame.overwrite(values);
    for index in 0..256 {
        assert_eq!(frame.bin(index), Some(3 * index as u32 + 1));
    }
    assert_eq!(frame.reported(0), 1);
    assert_eq!(frame.reported(257), 4);
    assert_eq!(frame.reported(511), 3 * 255 + 1);
}

#[test]
fn magnitudes_call_the_function_once_per_bin_in_order() {
    let mut packed = [Coefficient { re: 0, im: 0 }; 256];
    for (index, slot) in packed.iter_mut().enumerate() {
        *slot = Coefficient { re: index as u32, im: 7 };
    }
    let spectrum = Spectrum::from_packed(packed);
    let seen = std::cell::RefCell::new(Vec::new());
    let values = spectrum.magnitudes(|coefficient: Coefficient| {
        seen.borrow_mut().push(coefficient);
        10 * coefficient.re + coefficient.im
    });
    let seen = seen.into_inner();
    assert_eq!(seen.len(), 256);
    assert_eq!(seen[0], Coefficient { re: 0, im: 0 });
    assert_eq!(values[0], 0);
    for index in 1..256 {
        assert_eq!(seen[index], Coefficient { re: index as u32, im: 7 });
        assert_eq!(values[index], 10 * index as u32 + 7);
    }
}
