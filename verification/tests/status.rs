use batch_fft::cuda::{cudaError_t, cudaMemcpyKind};
use batch_fft::cufft::{cufftResult, cufftType, CUFFT_FORWARD, CUFFT_INVERSE};
use batch_fft::decimal::{push_int, push_nat};
use batch_fft::device::ReleaseWarning;
use batch_fft::error::{Error, LocalError};

#[test]
fn runtime_codes_decode_to_their_names() {
    assert_eq!(cudaError_t::from_code(0), cudaError_t::cudaSuccess);
    assert_eq!(cudaError_t::from_code(1), cudaError_t::cudaErrorInvalidValue);
    assert_eq!(cudaError_t::from_code(2), cudaError_t::cudaErrorMemoryAllocation);
    assert_eq!(cudaError_t::from_code(3), cudaError_t::cudaErrorOther(3));
    assert_eq!(cudaError_t::from_code(-1), cudaError_t::cudaErrorOther(-1));
    assert_eq!(cudaError_t::from_code(999), cudaError_t::cudaErrorOther(999));
}

#[test]
fn runtime_codes_round_trip() {
    for code in [-2147483648, -7, -1, 0, 1, 2, 3, 4, 700, 2147483647] {
        assert_eq!(cudaError_t::from_code(code).code(), code);
    }
    for status in [
        cudaError_t::cudaSuccess,
        cudaError_t::cudaErrorInvalidValue,
        cudaError_t::cudaErrorMemoryAllocation,
        cudaError_t::cudaErrorOther(35),
    ] {
        assert_eq!(cudaError_t::from_code(status.code()), status);
    }
}

#[test]
fn only_the_success_value_is_a_success() {
    assert!(cudaError_t::cudaSuccess.is_success());
    assert!(!cudaError_t::cudaErrorInvalidValue.is_success());
    assert!(!cudaError_t::cudaErrorMemoryAllocation.is_success());
    assert!(!cudaError_t::from_code(46).is_success());
    assert!(cufftResult::CUFFT_SUCCESS.is_success());
    for code in 1..=20 {
        assert!(!cufftResult::from_code(code).is_success());
        assert!(!cudaError_t::from_code(code).is_success());
    }
    assert!(!cufftResult::from_code(-1).is_success());
}

#[test]
fn runtime_status_renders_its_name() {
    assert_eq!(cudaError_t::cudaSuccess.to_string(), "cudaSuccess");
    assert_eq!(cudaError_t::cudaErrorInvalidValue.to_string(), "cudaErrorInvalidValue");
    assert_eq!(
        cudaError_t::cudaErrorMemoryAllocation.to_string(),
        "cudaErrorMemoryAllocation"
    );
}

#[test]
fn unnamed_runtime_status_renders_its_number() {
    assert_eq!(cudaError_t::from_code(3).to_string(), "cudaError(3)");
    assert_eq!(cudaError_t::from_code(700).to_string(), "cudaError(700)");
    assert_eq!(cudaError_t::from_code(-1).to_string(), "cudaError(-1)");
    assert_eq!(
        cudaError_t::from_code(2147483647).to_string(),
        "cudaError(2147483647)"
    );
    assert_eq!(
        cudaError_t::from_code(-2147483648).to_string(),
        "cudaError(-2147483648)"
    );
}

#[test]
fn transform_codes_decode_to_their_names() {
    let named = [
        cufftResult::CUFFT_SUCCESS,
        cufftResult::CUFFT_INVALID_PLAN,
        cufftResult::CUFFT_ALLOC_FAILED,
        cufftResult::CUFFT_INVALID_TYPE,
        cufftResult::CUFFT_INVALID_VALUE,
        cufftResult::CUFFT_INTERNAL_ERROR,
        cufftResult::CUFFT_EXEC_FAILED,
        cufftResult::CUFFT_SETUP_FAILED,
        cufftResult::CUFFT_INVALID_SIZE,
        cufftResult::CUFFT_UNALIGNED_DATA,
    ];
    for (code, status) in named.iter().enumerate() {
        assert_eq!(cufftResult::from_code(code as i32), *status);
        assert_eq!(status.code(), code as i32);
    }
    assert_eq!(cufftResult::from_code(10), cufftResult::CUFFT_OTHER(10));
    assert_eq!(cufftResult::from_code(-3), cufftResult::CUFFT_OTHER(-3));
    assert_eq!(cufftResult::from_code(10).code(), 10);
    assert_eq!(cufftResult::from_code(-3).code(), -3);
}

#[test]
fn transform_status_renders_its_name() {
    assert_eq!(cufftResult::CUFFT_SUCCESS.to_string(), "CUFFT_SUCCESS");
    assert_eq!(cufftResult::CUFFT_INVALID_PLAN.to_string(), "CUFFT_INVALID_PLAN");
    assert_eq!(cufftResult::CUFFT_ALLOC_FAILED.to_string(), "CUFFT_ALLOC_FAILED");
    assert_eq!(cufftResult::CUFFT_INVALID_TYPE.to_string(), "CUFFT_INVALID_TYPE");
    assert_eq!(cufftResult::CUFFT_INVALID_VALUE.to_string(), "CUFFT_INVALID_VALUE");
    assert_eq!(cufftResult::CUFFT_INTERNAL_ERROR.to_string(), "CUFFT_INTERNAL_ERROR");
    assert_eq!(cufftResult::CUFFT_EXEC_FAILED.to_string(), "CUFFT_EXEC_FAILED");
    assert_eq!(cufftResult::CUFFT_SETUP_FAILED.to_string(), "CUFFT_SETUP_FAILED");
    assert_eq!(cufftResult::CUFFT_INVALID_SIZE.to_string(), "CUFFT_INVALID_SIZE");
    assert_eq!(cufftResult::CUFFT_UNALIGNED_DATA.to_string(), "CUFFT_UNALIGNED_DATA");
    assert_eq!(cufftResult::from_code(17).to_string(), "cufftResult(17)");
    assert_eq!(cufftResult::from_code(-17).to_string(), "cufftResult(-17)");
}

#[test]
fn foreign_constants_have_their_values() {
    assert_eq!(cudaMemcpyKind::cudaMemcpyHostToDevice.code(), 1);
    assert_eq!(cudaMemcpyKind::cudaMemcpyDeviceToHost.code(), 2);
    assert_eq!(cudaMemcpyKind::cudaMemcpyDeviceToDevice.code(), 3);
    assert_eq!(cufftType::CUFFT_C2C.code(), 0x29);
    assert_eq!(CUFFT_FORWARD, -1);
    assert_eq!(CUFFT_INVERSE, 1);
}

#[test]
fn decimal_digits_are_appended() {
    let mut text = String::from("n=");
    push_nat(&mut text, 0);
    assert_eq!(text, "n=0");
    push_nat(&mut text, 9);
    push_nat(&mut text, 10);
    push_nat(&mut text, 18446744073709551615);
    assert_eq!(text, "n=091018446744073709551615");
    let mut signed = String::new();
    push_int(&mut signed, -120);
    push_int(&mut signed, 0);
    push_int(&mut signed, 4096);
    assert_eq!(signed, "-12004096");
}

#[test]
fn errors_render_operation_and_status() {
    assert_eq!(
        Error::Runtime(cudaError_t::cudaErrorMemoryAllocation).to_string(),
        "cudaErrorMemoryAllocation"
    );
    assert_eq!(
        Error::Plan(cufftResult::CUFFT_INVALID_SIZE).to_string(),
        "CUFFT_INVALID_SIZE"
    );
    assert_eq!(
        Error::Execution(cufftResult::CUFFT_EXEC_FAILED).to_string(),
        "cuFFT execution failed: CUFFT_EXEC_FAILED"
    );
    assert_eq!(
        Error::Synchronization(cudaError_t::cudaErrorInvalidValue).to_string(),
        "CUDA synchronization failed: cudaErrorInvalidValue"
    );
    assert_eq!(
        Error::Synchronization(cudaError_t::from_code(719)).to_string(),
        "CUDA synchronization failed: cudaError(719)"
    );
    assert_eq!(
        Error::Local(LocalError::SizeMismatch { expected: 640, actual: 64 }).to_string(),
        "Size mismatch: expected 640, got 64"
    );
    assert_eq!(Error::Local(LocalError::SizeOverflow).to_string(), "Size overflow");
    assert_eq!(Error::Local(LocalError::MissingOutput).to_string(), "Missing output");
}

#[test]
fn local_errors_are_told_from_foreign_ones() {
    assert!(Error::Local(LocalError::SizeOverflow).is_local());
    assert!(Error::Local(LocalError::MissingOutput).is_local());
    assert!(Error::Local(LocalError::SizeMismatch { expected: 1, actual: 2 }).is_local());
    assert!(!Error::Runtime(cudaError_t::cudaErrorInvalidValue).is_local());
    assert!(!Error::Plan(cufftResult::CUFFT_SETUP_FAILED).is_local());
    assert!(!Error::Execution(cufftResult::CUFFT_EXEC_FAILED).is_local());
    assert!(!Error::Synchronization(cudaError_t::cudaErrorInvalidValue).is_local());
}

#[test]
fn release_warnings_name_the_failed_release() {
    assert_eq!(
        ReleaseWarning::Free(cudaError_t::cudaErrorInvalidValue).to_string(),
        "Warning: cudaFree failed: cudaErrorInvalidValue"
    );
    assert_eq!(
        ReleaseWarning::EventDestroy(cudaError_t::from_code(400)).to_string(),
        "Warning: cudaEventDestroy failed: cudaError(400)"
    );
    assert_eq!(
        ReleaseWarning::Destroy(cufftResult::CUFFT_INVALID_PLAN).to_string(),
        "Warning: cufftDestroy failed: CUFFT_INVALID_PLAN"
    );
}
