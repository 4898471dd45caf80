use tari_comms::pipeline::sink::SinkService;

#[test]
fn sink_service_holds_the_sink_it_was_given() {
    let service = SinkService::new(vec![1u8, 2, 3]);
    assert_eq!(service.get_ref(), &vec![1u8, 2, 3]);
    assert_eq!(service.into_inner(), vec![1u8, 2, 3]);
}

#[test]
fn sink_service_keeps_what_is_done_to_its_sink() {
    let mut service = SinkService::new(vec![1u8]);
    service.get_mut().push(2);
    assert_eq!(service.get_ref(), &vec![1u8, 2]);
    service.get_mut().clear();
    assert_eq!(service.into_inner(), Vec::<u8>::new());
}

#[test]
fn cloned_sink_service_has_a_sink_of_its_own() {
    let mut first = SinkService::new(vec![7u8]);
    let second = first.clone();
    first.get_mut().push(8);
    assert_eq!(first.into_inner(), vec![7u8, 8]);
    assert_eq!(second.into_inner(), vec![7u8]);
}
