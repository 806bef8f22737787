use voronoi_render::device::{first_graphics_family, select_device, DeviceCandidate, DeviceChoice, DeviceKind};

fn candidate(kind: DeviceKind, ext: bool, families: Vec<bool>) -> DeviceCandidate {
    DeviceCandidate { kind, supports_required_extensions: ext, queue_family_graphics: families }
}

#[test]
fn discrete_chosen_among_virtual_integrated_discrete() {
    let cands = vec![
        candidate(DeviceKind::VirtualGpu, true, vec![true]),
        candidate(DeviceKind::IntegratedGpu, true, vec![true]),
        candidate(DeviceKind::DiscreteGpu, true, vec![false, true]),
    ];
    assert_eq!(select_device(&cands), Some(DeviceChoice { index: 2, queue_family: 1 }));
}

#[test]
fn discrete_chosen_in_any_order() {
    let cands = vec![
        candidate(DeviceKind::DiscreteGpu, true, vec![true]),
        candidate(DeviceKind::IntegratedGpu, true, vec![true]),
        candidate(DeviceKind::VirtualGpu, true, vec![true]),
    ];
    assert_eq!(select_device(&cands), Some(DeviceChoice { index: 0, queue_family: 0 }));
}

#[test]
fn first_of_equal_kinds_wins() {
    let cands = vec![
        candidate(DeviceKind::Cpu, true, vec![true]),
        candidate(DeviceKind::IntegratedGpu, true, vec![false, false, true]),
        candidate(DeviceKind::IntegratedGpu, true, vec![true]),
    ];
    assert_eq!(select_device(&cands), Some(DeviceChoice { index: 1, queue_family: 2 }));
}

#[test]
fn devices_without_extensions_or_graphics_are_skipped() {
    let cands = vec![
        candidate(DeviceKind::DiscreteGpu, false, vec![true]),
        candidate(DeviceKind::DiscreteGpu, true, vec![false, false]),
        candidate(DeviceKind::Other, true, vec![true]),
    ];
    assert_eq!(select_device(&cands), Some(DeviceChoice { index: 2, queue_family: 0 }));
}

#[test]
fn no_qualifying_device() {
    let cands = vec![
        candidate(DeviceKind::DiscreteGpu, false, vec![true]),
        candidate(DeviceKind::IntegratedGpu, true, vec![]),
    ];
    assert_eq!(select_device(&cands), None);
    assert_eq!(select_device(&Vec::new()), None);
}

#[test]
fn preference_order_of_kinds() {
    let kinds = [
        DeviceKind::DiscreteGpu,
        DeviceKind::IntegratedGpu,
        DeviceKind::VirtualGpu,
        DeviceKind::Cpu,
        DeviceKind::Other,
        DeviceKind::Unknown,
    ];
    for (i, k) in kinds.iter().enumerate() {
        assert_eq!(k.preference_rank() as usize, i);
    }
    let cands = vec![
        candidate(DeviceKind::Unknown, true, vec![true]),
        candidate(DeviceKind::Other, true, vec![true]),
        candidate(DeviceKind::Cpu, true, vec![true]),
        candidate(DeviceKind::VirtualGpu, true, vec![true]),
    ];
    assert_eq!(select_device(&cands), Some(DeviceChoice { index: 3, queue_family: 0 }));
}

#[test]
fn first_graphics_family_positions() {
    assert_eq!(first_graphics_family(&vec![false, true, true]), Some(1));
    assert_eq!(first_graphics_family(&vec![false, false]), None);
    assert_eq!(first_graphics_family(&vec![]), None);
}
