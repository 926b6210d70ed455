use audio_isolation_mirror::devices::{
    find_by_name, find_render_endpoint_id_by_name, position_holding, EndpointIdError,
    RenderEndpoint,
};

fn names(list: &[Option<&str>]) -> Vec<Option<String>> {
    list.iter().map(|n| n.map(|n| n.to_string())).collect()
}

#[test]
fn devices_are_found_whatever_the_case() {
    let devices = names(&[
        Some("Microphone"),
        None,
        Some("CABLE Output (VB-Audio Virtual Cable)"),
        Some("Second VB-Audio Virtual Cable"),
    ]);
    assert_eq!(find_by_name(&devices, "VB-Audio Virtual Cable"), Some(2));
    assert_eq!(find_by_name(&devices, "vb-audio VIRTUAL cable"), Some(2));
    assert_eq!(find_by_name(&devices, "second"), Some(3));
    assert_eq!(find_by_name(&devices, "headphones"), None);
    assert_eq!(find_by_name(&devices, ""), Some(0));
    assert_eq!(find_by_name(&[], "x"), None);
}

#[test]
fn case_folding_goes_beyond_ascii() {
    assert_eq!(find_by_name(&names(&[Some("KOPFHÖRER")]), "kopfhörer"), Some(0));
}

#[test]
fn devices_without_a_name_are_passed_over() {
    assert_eq!(find_by_name(&names(&[None, None]), ""), None);
}

#[test]
fn position_goes_by_the_text_as_it_is() {
    let devices = names(&[Some("abc"), Some("xABCx")]);
    assert_eq!(position_holding(&devices, "ABC"), Some(1));
    assert_eq!(position_holding(&devices, "b"), Some(0));
    assert_eq!(position_holding(&devices, "zz"), None);
}

fn endpoint(name: Option<&str>, id: Result<&str, EndpointIdError>) -> RenderEndpoint {
    RenderEndpoint { friendly_name: name.map(|n| n.to_string()), id: id.map(|i| i.to_string()) }
}

#[test]
fn endpoint_ids_by_name() {
    let endpoints = [
        endpoint(Some("Speakers"), Ok("{1}")),
        endpoint(None, Ok("{2}")),
        endpoint(Some("CABLE Input (VB-Audio Virtual Cable)"), Ok("{3}")),
    ];
    let found = find_render_endpoint_id_by_name(&endpoints, "cable input");
    assert_eq!(found, Ok(Some("{3}".to_string())));
    assert_eq!(find_render_endpoint_id_by_name(&endpoints, "HDMI"), Ok(None));
}

#[test]
fn endpoint_ids_that_cannot_be_had() {
    let endpoints = [
        endpoint(Some("A"), Err(EndpointIdError::Unavailable)),
        endpoint(Some("B"), Err(EndpointIdError::NotUtf16)),
    ];
    let a = find_render_endpoint_id_by_name(&endpoints, "a");
    assert_eq!(a, Err(EndpointIdError::Unavailable));
    let b = find_render_endpoint_id_by_name(&endpoints, "b");
    assert_eq!(b, Err(EndpointIdError::NotUtf16));
    assert_eq!(EndpointIdError::Unavailable.message(), "failed to get device id");
    assert_eq!(EndpointIdError::NotUtf16.message(), "device id was not valid UTF-16");
}

#[test]
fn an_earlier_name_that_holds_the_name_comes_first() {
    let list = names(&[Some("Speakers (2)"), Some("Speakers"), Some("Headset")]);
    assert_eq!(find_by_name(&list, "Speakers"), Some(0));
    assert_eq!(find_by_name(&list, "Headset"), Some(2));
}
