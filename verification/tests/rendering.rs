use cuda_error::render::{finish_render, start_render, RenderError, RenderStep};
use cuda_error::status::ToResult;
use cuda_error::CudaError;

/// Stands in for the driver's message table.
fn mock_lookup(code: u32) -> (u32, &'static str) {
    match code {
        2 => (0, "out of memory"),
        400 => (0, "invalid resource handle"),
        700 => (0, "an illegal memory access was encountered"),
        999 => (0, "unknown error"),
        _ => (1, ""),
    }
}

fn render_with_mock(kind: CudaError) -> Result<String, RenderError> {
    match start_render(kind) {
        RenderStep::Done(text) => Ok(text),
        RenderStep::AskDriver(code) => {
            let (status, message) = mock_lookup(code);
            finish_render(status, message)
        }
    }
}

#[test]
fn invalid_memory_allocation_renders_without_the_driver() {
    assert_eq!(
        start_render(CudaError::InvalidMemoryAllocation),
        RenderStep::Done(String::from("Invalid memory allocation"))
    );
    assert_eq!(
        render_with_mock(CudaError::InvalidMemoryAllocation),
        Ok(String::from("Invalid memory allocation"))
    );
}

#[test]
fn driver_kind_asks_for_its_own_status() {
    assert_eq!(start_render(CudaError::OutOfMemory), RenderStep::AskDriver(2));
    assert_eq!(start_render(CudaError::IllegalAddress), RenderStep::AskDriver(700));
    assert_eq!(start_render(CudaError::InvalidHandle), RenderStep::AskDriver(400));
    assert_eq!(start_render(CudaError::UnknownError), RenderStep::AskDriver(999));
    assert_eq!(start_render(CudaError::InvalidValue), RenderStep::AskDriver(1));
}

#[test]
fn out_of_memory_renders_to_the_driver_message() {
    let kind = match 2u32.to_result() {
        Err(kind) => kind,
        Ok(()) => panic!("status 2 is a failure"),
    };
    assert_eq!(kind, CudaError::OutOfMemory);
    let text = render_with_mock(kind).unwrap();
    assert_eq!(text, "out of memory");
    assert!(!text.is_empty());
    assert!(text.to_lowercase().contains("memory"));
}

#[test]
fn illegal_address_renders_to_the_driver_message() {
    let kind = match 700u32.to_result() {
        Err(kind) => kind,
        Ok(()) => panic!("status 700 is a failure"),
    };
    assert_eq!(kind, CudaError::IllegalAddress);
    assert_eq!(
        render_with_mock(kind),
        Ok(String::from("an illegal memory access was encountered"))
    );
}

#[test]
fn unlisted_status_renders_as_unknown() {
    let kind = match 12345u32.to_result() {
        Err(kind) => kind,
        Ok(()) => panic!("status 12345 is a failure"),
    };
    assert_eq!(render_with_mock(kind), Ok(String::from("unknown error")));
}

#[test]
fn failed_lookup_is_a_rendering_failure() {
    assert_eq!(finish_render(1, "ignored"), Err(RenderError));
    assert_eq!(finish_render(999, ""), Err(RenderError));
    assert_eq!(finish_render(12345, "text"), Err(RenderError));
    assert_eq!(render_with_mock(CudaError::NotReady), Err(RenderError));
}

#[test]
fn successful_lookup_copies_the_message() {
    let source = String::from("device-side assert triggered");
    let text = finish_render(0, &source).unwrap();
    assert_eq!(text, source);
    drop(source);
    assert_eq!(text, "device-side assert triggered");
}

#[test]
fn rendering_is_repeatable() {
    for kind in [
        CudaError::InvalidMemoryAllocation,
        CudaError::OutOfMemory,
        CudaError::IllegalAddress,
        CudaError::NotReady,
    ] {
        assert_eq!(start_render(kind), start_render(kind));
        assert_eq!(render_with_mock(kind), render_with_mock(kind));
    }
}

#[test]
fn rendered_text_is_never_empty() {
    for kind in [
        CudaError::InvalidMemoryAllocation,
        CudaError::OutOfMemory,
        CudaError::InvalidHandle,
        CudaError::IllegalAddress,
        CudaError::UnknownError,
        CudaError::Timeout,
    ] {
        match render_with_mock(kind) {
            Ok(text) => assert!(!text.is_empty()),
            Err(e) => assert_eq!(e, RenderError),
        }
    }
}
