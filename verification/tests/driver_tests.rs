use screencopy::driver::{plan_request, CaptureRequest};

#[test]
fn region_request_carries_exact_coordinates() {
    let request = plan_request(Some((100, 100, 200, 150)));
    match request {
        CaptureRequest::Region { x, y, width, height } => {
            assert_eq!(x, 100);
            assert_eq!(y, 100);
            assert_eq!(width, 200);
            assert_eq!(height, 150);
        }
        CaptureRequest::WholeOutput => panic!("expected a region request"),
    }
}

#[test]
fn whole_output_request_without_region() {
    let request = plan_request(None);
    assert!(matches!(request, CaptureRequest::WholeOutput));
}
