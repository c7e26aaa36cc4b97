use ocl::context::{Context, DEFAULT_DEVICE};
use ocl::handle::{ContextHandle, DeviceId, PlatformId};

fn context_of(device_addrs: &[usize]) -> Context {
    let platforms = vec![PlatformId { addr: 0x1000 }];
    let device_ids: Vec<DeviceId> = device_addrs.iter().map(|&addr| DeviceId { addr }).collect();
    Context::new(None, None)
        .answer(&platforms)
        .unwrap()
        .answer(device_ids)
        .unwrap()
        .answer(ContextHandle { addr: 0x2000 })
}

#[test]
fn valid_device_within_the_list() {
    let context = context_of(&[11, 22, 33]);
    assert_eq!(context.valid_device(0), DeviceId { addr: 11 });
    assert_eq!(context.valid_device(1), DeviceId { addr: 22 });
    assert_eq!(context.valid_device(2), DeviceId { addr: 33 });
}

#[test]
fn valid_device_wraps_round() {
    let context = context_of(&[11, 22, 33]);
    assert_eq!(context.valid_device(3), DeviceId { addr: 11 });
    assert_eq!(context.valid_device(5), DeviceId { addr: 33 });
    assert_eq!(context.valid_device(100), DeviceId { addr: 22 });
}

#[test]
fn valid_device_at_the_largest_index() {
    let context = context_of(&[11, 22, 33, 44, 55, 66, 77]);
    let expected = DeviceId { addr: [11, 22, 33, 44, 55, 66, 77][usize::MAX % 7] };
    assert_eq!(context.valid_device(usize::MAX), expected);
}

#[test]
fn valid_device_with_one_device() {
    let context = context_of(&[42]);
    for idx in [0usize, 1, 2, 99, usize::MAX] {
        assert_eq!(context.valid_device(idx), DeviceId { addr: 42 });
    }
}

#[test]
fn resolve_without_index_gives_the_first() {
    assert_eq!(DEFAULT_DEVICE, 0);
    let context = context_of(&[11, 22, 33]);
    assert_eq!(context.resolve_device_id(None), DeviceId { addr: 11 });
}

#[test]
fn resolve_with_index_wraps_round() {
    let context = context_of(&[11, 22, 33]);
    assert_eq!(context.resolve_device_id(Some(1)), DeviceId { addr: 22 });
    assert_eq!(context.resolve_device_id(Some(4)), DeviceId { addr: 22 });
    assert_eq!(context.resolve_device_id(Some(6)), DeviceId { addr: 11 });
}

#[test]
fn resolved_device_is_always_listed() {
    let context = context_of(&[11, 22, 33, 44]);
    for idx in 0usize..40 {
        let device = context.resolve_device_id(Some(idx));
        assert!(context.device_ids().contains(&device));
        assert_eq!(device, context.device_ids()[idx % 4]);
    }
}

#[test]
fn getters_give_what_was_answered() {
    let context = context_of(&[11, 22]);
    assert_eq!(context.obj(), ContextHandle { addr: 0x2000 });
    assert_eq!(context.platform(), Some(PlatformId { addr: 0x1000 }));
    assert_eq!(context.device_ids(), &vec![DeviceId { addr: 11 }, DeviceId { addr: 22 }]);
}

#[test]
fn a_new_context_is_not_released() {
    let context = context_of(&[11, 22]);
    assert!(!context.is_released());
}

#[test]
fn release_hands_out_the_handle_once() {
    let mut context = context_of(&[11, 22]);
    assert_eq!(context.release(), Some(ContextHandle { addr: 0x2000 }));
    assert!(context.is_released());
    assert_eq!(context.release(), None);
    assert_eq!(context.release(), None);
    assert!(context.is_released());
}

#[test]
fn release_keeps_the_record() {
    let mut context = context_of(&[11, 22]);
    assert_eq!(context.release(), Some(ContextHandle { addr: 0x2000 }));
    assert_eq!(context.obj(), ContextHandle { addr: 0x2000 });
    assert_eq!(context.platform(), Some(PlatformId { addr: 0x1000 }));
    assert_eq!(context.device_ids(), &vec![DeviceId { addr: 11 }, DeviceId { addr: 22 }]);
    assert_eq!(context.valid_device(3), DeviceId { addr: 22 });
    assert_eq!(context.release(), None);
    assert_eq!(context.obj(), ContextHandle { addr: 0x2000 });
    assert_eq!(context.device_ids().len(), 2);
}
