use audio_isolation_mirror::routing::{
    get_endpoint_override, next_interface, next_write, persisted_endpoint, restore_endpoint,
    route_process_to_endpoint, wrap_device_id, EndpointWrite, Role,
};

fn apply(stored: &mut (String, String), writes: &[EndpointWrite]) {
    for write in writes {
        match write.role {
            Role::Console => stored.0 = write.value.clone(),
            Role::Multimedia => stored.1 = write.value.clone(),
        }
    }
}

#[test]
fn ids_are_wrapped() {
    assert_eq!(
        wrap_device_id("{0.0.0.00000000}.{x}"),
        "\\\\?\\SWD#MMDEVAPI#{0.0.0.00000000}.{x}#{e6327cad-dcec-4949-ae8a-991e976a79d2}"
    );
}

#[test]
fn routing_writes_both_roles() {
    let writes = route_process_to_endpoint("id");
    assert_eq!(writes.len(), 2);
    assert_eq!(writes[0].role, Role::Console);
    assert_eq!(writes[1].role, Role::Multimedia);
    assert_eq!(writes[0].value, wrap_device_id("id"));
    assert_eq!(writes[1].value, wrap_device_id("id"));
}

#[test]
fn an_empty_value_means_default() {
    assert_eq!(persisted_endpoint(String::new()), None);
    assert_eq!(persisted_endpoint("dev".to_string()), Some("dev".to_string()));
}

#[test]
fn restoring_puts_things_back() {
    for before in [("", ""), ("speakers", ""), ("", "headset"), ("a", "b")] {
        for made in 0..3 {
            let mut stored = (before.0.to_string(), before.1.to_string());
            let read: Result<String, String> = Ok(stored.0.clone());
            let original = match get_endpoint_override(read, Ok(stored.1.clone())) {
                Ok(original) => original,
                Err(e) => panic!("{}", e),
            };
            apply(&mut stored, &route_process_to_endpoint("cable")[..made]);
            apply(&mut stored, &restore_endpoint(&original.clone()));
            assert_eq!((stored.0.as_str(), stored.1.as_str()), before);
        }
    }
}

#[test]
fn first_failure_to_read_is_passed_on() {
    let both = get_endpoint_override(Err("one"), Err("two"));
    assert_eq!(both.err(), Some("one"));
    let second = get_endpoint_override(Ok(String::new()), Err("two"));
    assert_eq!(second.err(), Some("two"));
}

#[test]
fn interfaces_are_tried_in_turn() {
    assert_eq!(next_interface(0), Some(0xab3d4648_e242_459f_b02f_541c70306324));
    assert_eq!(next_interface(1), Some(0x2a59116d_6c4f_45e0_a74f_707e3fef9258));
    assert_eq!(next_interface(2), Some(0x32aa8e18_6496_4e24_9f94_b800e7eccc45));
    assert_eq!(next_interface(3), None);
}

#[test]
fn writes_stop_at_the_first_failure() {
    assert_eq!(next_write(2, 0, false), Some(0));
    assert_eq!(next_write(2, 1, false), Some(1));
    assert_eq!(next_write(2, 2, false), None);
    assert_eq!(next_write(2, 1, true), None);
}
