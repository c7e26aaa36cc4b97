use ocl::error::ContextError;

#[test]
fn message_of_no_platforms() {
    assert_eq!(ContextError::NoPlatforms.message(), "\nNo OpenCL platforms found!\n");
}

#[test]
fn message_of_invalid_platform_index() {
    assert_eq!(
        ContextError::InvalidPlatformIndex.message(),
        "Invalid OpenCL platform index specified. Use 'get_platform_ids()' for a list."
    );
}

#[test]
fn message_of_no_devices() {
    assert_eq!(ContextError::NoDevices.message(), "\nNo OpenCL devices found!\n");
}

#[test]
fn messages_differ() {
    let all = [
        ContextError::NoPlatforms,
        ContextError::InvalidPlatformIndex,
        ContextError::NoDevices,
    ];
    for a in all {
        for b in all {
            assert_eq!(a == b, a.message() == b.message());
        }
    }
}
