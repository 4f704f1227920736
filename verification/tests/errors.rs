use vulkano::errors::{supported_by_core_result, ErrorCause};
use vulkano::{Error, LoadingError, OomError, SupportedExtensionsError};

#[test]
fn descriptions_of_each_error() {
    let loading = SupportedExtensionsError::LoadingError(LoadingError::LibraryLoadFailure(
        "no such file".to_string(),
    ));
    assert_eq!(loading.description(), "failed to load the Vulkan shared library");
    let oom = SupportedExtensionsError::OomError(OomError::OutOfHostMemory);
    assert_eq!(oom.description(), "not enough memory available");
}

#[test]
fn cause_is_the_held_error() {
    let inner = LoadingError::MissingEntryPoint("vkCreateInstance".to_string());
    let e = SupportedExtensionsError::LoadingError(inner.clone());
    match e.cause() {
        Some(ErrorCause::Loading(l)) => assert_eq!(*l, inner),
        _ => panic!("wrong cause"),
    }
    let e = SupportedExtensionsError::OomError(OomError::OutOfDeviceMemory);
    match e.cause() {
        Some(ErrorCause::Oom(o)) => assert_eq!(*o, OomError::OutOfDeviceMemory),
        _ => panic!("wrong cause"),
    }
}

#[test]
fn out_of_memory_codes_become_oom_errors() {
    match SupportedExtensionsError::from_error(Error::OutOfHostMemory) {
        SupportedExtensionsError::OomError(o) => assert_eq!(o, OomError::OutOfHostMemory),
        _ => panic!("wrong error"),
    }
    match SupportedExtensionsError::from_error(Error::OutOfDeviceMemory) {
        SupportedExtensionsError::OomError(o) => assert_eq!(o, OomError::OutOfDeviceMemory),
        _ => panic!("wrong error"),
    }
}

#[test]
fn conversions_into_the_error() {
    let e: SupportedExtensionsError = OomError::OutOfHostMemory.into();
    assert!(matches!(e, SupportedExtensionsError::OomError(OomError::OutOfHostMemory)));
    let e: SupportedExtensionsError = LoadingError::LibraryLoadFailure("x".to_string()).into();
    assert!(matches!(e, SupportedExtensionsError::LoadingError(LoadingError::LibraryLoadFailure(_))));
}

#[test]
fn core_result_passes_values_and_loading_errors() {
    let ok: Result<u32, SupportedExtensionsError> = Ok(7);
    assert_eq!(supported_by_core_result(ok), Ok(7));
    let err: Result<u32, SupportedExtensionsError> = Err(SupportedExtensionsError::LoadingError(
        LoadingError::MissingEntryPoint("vkGetInstanceProcAddr".to_string()),
    ));
    assert_eq!(
        supported_by_core_result(err),
        Err(LoadingError::MissingEntryPoint("vkGetInstanceProcAddr".to_string()))
    );
}

#[test]
fn device_result_gives_the_extensions() {
    let ok: Result<&str, SupportedExtensionsError> = Ok("list");
    assert_eq!(vulkano::errors::supported_by_device_result(ok), "list");
}
