use reverb_plugin::param::{
    parameter_label, parameter_name, parameter_text_format, Param, TextFormat, DEFAULT_SIZE_BITS,
    SIZE_SCALE,
};
use reverb_plugin::shared::SharedParams;
use reverb_plugin::store::{plan_with, EngineSettings, ParamStore};

#[test]
fn set_then_get_round_trips_every_index() {
    let values = [0.0f32, 1.0, 0.25, -3.5, 1.0e-30, f32::MAX];
    for index in 0..4 {
        for v in values {
            let mut s = ParamStore::new();
            s.set(index, v.to_bits());
            assert_eq!(f32::from_bits(s.get(index)), v);
            let shared = SharedParams::new();
            shared.set(index, v.to_bits());
            assert_eq!(f32::from_bits(shared.get(index)), v);
        }
    }
}

#[test]
fn defaults_are_the_nominal_values() {
    let s = ParamStore::new();
    assert_eq!(f32::from_bits(s.get(0)), 0.4);
    assert_eq!(f32::from_bits(s.get(1)), 0.5);
    assert_eq!(f32::from_bits(s.get(2)), 0.5);
    assert_eq!(f32::from_bits(s.get(3)), 0.3);
    assert!(s.is_stale());
    let shared = SharedParams::new();
    assert_eq!(shared.get(3), DEFAULT_SIZE_BITS);
}

#[test]
fn out_of_range_index_reads_zero_and_writes_nothing() {
    for index in [-1, 4, 5, i32::MIN, i32::MAX] {
        let mut s = ParamStore::new();
        let before: Vec<u32> = (0..4).map(|i| s.get(i)).collect();
        s.set(index, 7.0f32.to_bits());
        assert_eq!(s.get(index), 0);
        assert_eq!(f32::from_bits(s.get(index)), 0.0);
        let after: Vec<u32> = (0..4).map(|i| s.get(i)).collect();
        assert_eq!(before, after);
        assert_eq!(parameter_name(index), "");
        assert_eq!(parameter_label(index), "");
        assert_eq!(parameter_text_format(index), None);

        let shared = SharedParams::new();
        shared.set(index, 7.0f32.to_bits());
        assert_eq!(shared.get(index), 0);
        assert_eq!(shared.get(0), 0.4f32.to_bits());
    }
}

#[test]
fn names_labels_and_formats() {
    let names = ["dry/wet", "absorbtion", "decay", "size"];
    let labels = ["%", "", "s", "m"];
    for i in 0..4 {
        assert_eq!(parameter_name(i), names[i as usize]);
        assert_eq!(parameter_label(i), labels[i as usize]);
        assert_eq!(Param::from_index(i).unwrap().index(), i);
    }
    assert_eq!(parameter_text_format(0), Some(TextFormat::Percent));
    assert_eq!(parameter_text_format(1), Some(TextFormat::Plain));
    assert_eq!(parameter_text_format(3), Some(TextFormat::Plain));
    assert_eq!(Param::from_index(2), Some(Param::Decay));
}

#[test]
fn every_set_marks_stale() {
    let mut s = ParamStore::new();
    assert!(s.reconcile().is_some());
    assert!(!s.is_stale());
    s.set(1, 0.9f32.to_bits());
    assert!(s.is_stale());
    s.set(1, 0.9f32.to_bits());
    assert!(s.is_stale());
    s.reconcile();
    s.set(42, 0.9f32.to_bits());
    assert!(s.is_stale());
}

#[test]
fn reconcile_while_fresh_pushes_nothing() {
    let mut s = ParamStore::new();
    assert!(s.reconcile().is_some());
    assert_eq!(s.reconcile(), None);
    assert_eq!(s.reconcile(), None);
    let plan = s.plan_block(1, 1);
    assert_eq!(plan.configure, None);

    let shared = SharedParams::new();
    assert!(shared.reconcile().is_some());
    assert_eq!(shared.reconcile(), None);
}

#[test]
fn reconcile_pushes_latest_values() {
    let mut s = ParamStore::new();
    s.reconcile();
    s.set(0, 0.1f32.to_bits());
    s.set(3, 0.7f32.to_bits());
    s.set(0, 0.2f32.to_bits());
    s.set(2, 0.9f32.to_bits());
    let expected = EngineSettings {
        dry_wet: s.get(0),
        absorption: s.get(1),
        decay: s.get(2),
        size: s.get(3),
    };
    assert_eq!(expected.dry_wet, 0.2f32.to_bits());
    assert_eq!(s.reconcile(), Some(expected));
    assert!(!s.is_stale());

    let shared = SharedParams::new();
    shared.set(0, 0.2f32.to_bits());
    shared.set(1, 0.6f32.to_bits());
    assert_eq!(
        shared.reconcile(),
        Some(EngineSettings {
            dry_wet: 0.2f32.to_bits(),
            absorption: 0.6f32.to_bits(),
            decay: 0.5f32.to_bits(),
            size: 0.3f32.to_bits(),
        })
    );
}

#[test]
fn write_during_reconcile_is_not_lost() {
    let mut s = ParamStore::new();
    assert!(s.claim());
    s.set(2, 0.8f32.to_bits());
    let settings = s.settings();
    assert_eq!(settings.decay, 0.8f32.to_bits());
    assert!(s.is_stale());
    assert_eq!(s.reconcile(), Some(settings));
}

#[test]
fn size_reaches_engine_rescaled() {
    let shared = SharedParams::new();
    shared.set(3, 0.3f32.to_bits());
    let plan = shared.plan_block(1, 1);
    assert_eq!(plan.channels, 1);
    let settings = plan.configure.unwrap();
    let engine_size = f32::from_bits(settings.size) * SIZE_SCALE as f32;
    assert!((engine_size - 30.0).abs() < 1.0e-4);

    let mut s = ParamStore::new();
    s.set(3, 0.3f32.to_bits());
    let plan = s.plan_block(1, 1);
    assert_eq!(plan.configure.unwrap().size, 0.3f32.to_bits());
}

#[test]
fn one_engine_call_per_channel() {
    let mut s = ParamStore::new();
    let plan = s.plan_block(2, 2);
    assert_eq!(plan.channels, 2);
    assert!(plan.configure.is_some());
    assert_eq!(s.plan_block(2, 2).channels, 2);
    assert_eq!(s.plan_block(0, 0).channels, 0);
    assert_eq!(plan_with(None, 3, 2).channels, 2);
    assert_eq!(plan_with(None, 1, 4).channels, 1);
}

#[test]
fn invalidate_marks_stale_only() {
    let mut s = ParamStore::new();
    s.reconcile();
    s.invalidate();
    assert!(s.is_stale());
    assert_eq!(f32::from_bits(s.get(0)), 0.4);
    let shared = SharedParams::new();
    shared.reconcile();
    shared.invalidate();
    assert!(shared.reconcile().is_some());
}
