//! Result codes of the RKNN runtime and their error type.
use vstd::prelude::*;

verus! {

/// Execute succeed.
pub const RKNN_SUCCESS: i32 = 0;

/// Execute failed.
pub const RKNN_ERR_FAIL: i32 = -1;

/// Execute timeout.
pub const RKNN_ERR_TIMEOUT: i32 = -2;

/// Device is unavailable.
pub const RKNN_ERR_DEVICE_UNAVAILABLE: i32 = -3;

/// Memory malloc fail.
pub const RKNN_ERR_MALLOC_FAIL: i32 = -4;

/// Parameter is invalid.
pub const RKNN_ERR_PARAM_INVALID: i32 = -5;

/// Model is invalid.
pub const RKNN_ERR_MODEL_INVALID: i32 = -6;

/// Context is invalid.
pub const RKNN_ERR_CTX_INVALID: i32 = -7;

/// Input is invalid.
pub const RKNN_ERR_INPUT_INVALID: i32 = -8;

/// Output is invalid.
pub const RKNN_ERR_OUTPUT_INVALID: i32 = -9;

/// The device does not match the SDK and driver.
pub const RKNN_ERR_DEVICE_UNMATCH: i32 = -10;

/// The pre-compiled model is not compatible with the driver.
pub const RKNN_ERR_INCOMPATILE_PRE_COMPILE_MODEL: i32 = -11;

/// The model's optimization level is not compatible with the driver.
pub const RKNN_ERR_INCOMPATILE_OPTIMIZATION_LEVEL_VERSION: i32 = -12;

/// The model's target platform does not match the current platform.
pub const RKNN_ERR_TARGET_PLATFORM_UNMATCH: i32 = -13;

/// RKNN result type for better error handling.
#[derive(Debug, Clone, Copy, PartialEq, Eq, Structural)]
pub enum RknnError {
    /// Execute succeed
    Success,
    /// Execute failed
    Fail,
    /// Execute timeout
    Timeout,
    /// Device is unavailable
    DeviceUnavailable,
    /// Memory malloc fail
    MallocFail,
    /// Parameter is invalid
    ParamInvalid,
    /// Model is invalid
    ModelInvalid,
    /// Context is invalid
    CtxInvalid,
    /// Input is invalid
    InputInvalid,
    /// Output is invalid
    OutputInvalid,
    /// The device is unmatch, please update rknn sdk and npu driver/firmware
    DeviceUnmatch,
    /// This RKNN model use pre_compile mode, but not compatible with current driver
    IncompatiblePreCompileModel,
    /// This RKNN model set optimization level, but not compatible with current driver
    IncompatibleOptimizationLevelVersion,
    /// This RKNN model set target platform, but not compatible with current platform
    TargetPlatformUnmatch,
    /// Unknown error code
    Unknown(i32),
}

/// The raw code of an error.
pub open spec fn code_of(e: RknnError) -> i32 {
    match e {
        RknnError::Success => RKNN_SUCCESS,
        RknnError::Fail => RKNN_ERR_FAIL,
        RknnError::Timeout => RKNN_ERR_TIMEOUT,
        RknnError::DeviceUnavailable => RKNN_ERR_DEVICE_UNAVAILABLE,
        RknnError::MallocFail => RKNN_ERR_MALLOC_FAIL,
        RknnError::ParamInvalid => RKNN_ERR_PARAM_INVALID,
        RknnError::ModelInvalid => RKNN_ERR_MODEL_INVALID,
        RknnError::CtxInvalid => RKNN_ERR_CTX_INVALID,
        RknnError::InputInvalid => RKNN_ERR_INPUT_INVALID,
        RknnError::OutputInvalid => RKNN_ERR_OUTPUT_INVALID,
        RknnError::DeviceUnmatch => RKNN_ERR_DEVICE_UNMATCH,
        RknnError::IncompatiblePreCompileModel => RKNN_ERR_INCOMPATILE_PRE_COMPILE_MODEL,
        RknnError::IncompatibleOptimizationLevelVersion => RKNN_ERR_INCOMPATILE_OPTIMIZATION_LEVEL_VERSION,
        RknnError::TargetPlatformUnmatch => RKNN_ERR_TARGET_PLATFORM_UNMATCH,
        RknnError::Unknown(code) => code,
    }
}

/// The codes that have a variant of their own: `0` down to `-13`.
pub open spec fn is_known_code(code: i32) -> bool {
    RKNN_ERR_TARGET_PLATFORM_UNMATCH <= code <= RKNN_SUCCESS
}

/// The error of a raw code: the variant named for it, or `Unknown(code)`.
pub open spec fn error_of_code(code: i32) -> RknnError {
    if code == RKNN_SUCCESS {
        RknnError::Success
    } else if code == RKNN_ERR_FAIL {
        RknnError::Fail
    } else if code == RKNN_ERR_TIMEOUT {
        RknnError::Timeout
    } else if code == RKNN_ERR_DEVICE_UNAVAILABLE {
        RknnError::DeviceUnavailable
    } else if code == RKNN_ERR_MALLOC_FAIL {
        RknnError::MallocFail
    } else if code == RKNN_ERR_PARAM_INVALID {
        RknnError::ParamInvalid
    } else if code == RKNN_ERR_MODEL_INVALID {
        RknnError::ModelInvalid
    } else if code == RKNN_ERR_CTX_INVALID {
        RknnError::CtxInvalid
    } else if code == RKNN_ERR_INPUT_INVALID {
        RknnError::InputInvalid
    } else if code == RKNN_ERR_OUTPUT_INVALID {
        RknnError::OutputInvalid
    } else if code == RKNN_ERR_DEVICE_UNMATCH {
        RknnError::DeviceUnmatch
    } else if code == RKNN_ERR_INCOMPATILE_PRE_COMPILE_MODEL {
        RknnError::IncompatiblePreCompileModel
    } else if code == RKNN_ERR_INCOMPATILE_OPTIMIZATION_LEVEL_VERSION {
        RknnError::IncompatibleOptimizationLevelVersion
    } else if code == RKNN_ERR_TARGET_PLATFORM_UNMATCH {
        RknnError::TargetPlatformUnmatch
    } else {
        RknnError::Unknown(code)
    }
}

/// An error as `from_code` makes it: `Unknown` only for codes that have no
/// variant of their own.
pub open spec fn is_canonical(e: RknnError) -> bool {
    match e {
        RknnError::Unknown(code) => !is_known_code(code),
        _ => true,
    }
}

/// The decimal digit `d` (for `d < 10`).
pub open spec fn decimal_digit(d: nat) -> char {
    (48 + d) as char
}

/// The decimal digits of `n`, most significant first, without leading zeros
/// (`0` is written as one digit).
pub open spec fn nat_decimal(n: nat) -> Seq<char>
    decreases n,
{
    if n < 10 {
        seq![decimal_digit(n)]
    } else {
        nat_decimal(n / 10).push(decimal_digit(n % 10))
    }
}

/// An integer written in decimal, with a leading `-` when negative.
pub open spec fn int_decimal(x: int) -> Seq<char> {
    if x < 0 {
        seq!['-'] + nat_decimal((-x) as nat)
    } else {
        nat_decimal(x as nat)
    }
}

/// The description of an error.
pub open spec fn message_of(e: RknnError) -> Seq<char> {
    match e {
        RknnError::Success => "Execute succeed"@,
        RknnError::Fail => "Execute failed"@,
        RknnError::Timeout => "Execute timeout"@,
        RknnError::DeviceUnavailable => "Device is unavailable"@,
        RknnError::MallocFail => "Memory malloc fail"@,
        RknnError::ParamInvalid => "Parameter is invalid"@,
        RknnError::ModelInvalid => "Model is invalid"@,
        RknnError::CtxInvalid => "Context is invalid"@,
        RknnError::InputInvalid => "Input is invalid"@,
        RknnError::OutputInvalid => "Output is invalid"@,
        RknnError::DeviceUnmatch => "The device is unmatch, please update rknn sdk and npu driver/firmware"@,
        RknnError::IncompatiblePreCompileModel => "This RKNN model use pre_compile mode, but not compatible with current driver"@,
        RknnError::IncompatibleOptimizationLevelVersion => "This RKNN model set optimization level, but not compatible with current driver"@,
        RknnError::TargetPlatformUnmatch => "This RKNN model set target platform, but not compatible with current platform"@,
        RknnError::Unknown(code) => "Unknown error code: "@ + int_decimal(code as int),
    }
}

/// `i32::to_string`: the decimal text of `code`.
///
/// Trusted: std's `Display` of `i32` writes the decimal digits of the value
/// without leading zeros, preceded by `-` when it is negative.
#[verifier::external_body]
fn i32_decimal(code: i32) -> (s: String)
    ensures
        s@ == int_decimal(code as int),
{
    code.to_string()
}

impl RknnError {
    /// Convert from raw error code to RknnError enum.
    pub fn from_code(code: i32) -> (e: Self)
        ensures
            e == error_of_code(code),
    {
        match code {
            RKNN_SUCCESS => RknnError::Success,
            RKNN_ERR_FAIL => RknnError::Fail,
            RKNN_ERR_TIMEOUT => RknnError::Timeout,
            RKNN_ERR_DEVICE_UNAVAILABLE => RknnError::DeviceUnavailable,
            RKNN_ERR_MALLOC_FAIL => RknnError::MallocFail,
            RKNN_ERR_PARAM_INVALID => RknnError::ParamInvalid,
            RKNN_ERR_MODEL_INVALID => RknnError::ModelInvalid,
            RKNN_ERR_CTX_INVALID => RknnError::CtxInvalid,
            RKNN_ERR_INPUT_INVALID => RknnError::InputInvalid,
            RKNN_ERR_OUTPUT_INVALID => RknnError::OutputInvalid,
            RKNN_ERR_DEVICE_UNMATCH => RknnError::DeviceUnmatch,
            RKNN_ERR_INCOMPATILE_PRE_COMPILE_MODEL => RknnError::IncompatiblePreCompileModel,
            RKNN_ERR_INCOMPATILE_OPTIMIZATION_LEVEL_VERSION => RknnError::IncompatibleOptimizationLevelVersion,
            RKNN_ERR_TARGET_PLATFORM_UNMATCH => RknnError::TargetPlatformUnmatch,
            _ => RknnError::Unknown(code),
        }
    }

    /// Convert to raw error code.
    pub fn to_code(&self) -> (code: i32)
        ensures
            code == code_of(*self),
    {
        match self {
            RknnError::Success => RKNN_SUCCESS,
            RknnError::Fail => RKNN_ERR_FAIL,
            RknnError::Timeout => RKNN_ERR_TIMEOUT,
            RknnError::DeviceUnavailable => RKNN_ERR_DEVICE_UNAVAILABLE,
            RknnError::MallocFail => RKNN_ERR_MALLOC_FAIL,
            RknnError::ParamInvalid => RKNN_ERR_PARAM_INVALID,
            RknnError::ModelInvalid => RKNN_ERR_MODEL_INVALID,
            RknnError::CtxInvalid => RKNN_ERR_CTX_INVALID,
            RknnError::InputInvalid => RKNN_ERR_INPUT_INVALID,
            RknnError::OutputInvalid => RKNN_ERR_OUTPUT_INVALID,
            RknnError::DeviceUnmatch => RKNN_ERR_DEVICE_UNMATCH,
            RknnError::IncompatiblePreCompileModel => RKNN_ERR_INCOMPATILE_PRE_COMPILE_MODEL,
            RknnError::IncompatibleOptimizationLevelVersion => RKNN_ERR_INCOMPATILE_OPTIMIZATION_LEVEL_VERSION,
            RknnError::TargetPlatformUnmatch => RKNN_ERR_TARGET_PLATFORM_UNMATCH,
            RknnError::Unknown(code) => *code,
        }
    }

    /// Check if the error represents success.
    pub fn is_success(&self) -> (b: bool)
        ensures
            b == (*self == RknnError::Success),
    {
        matches!(self, RknnError::Success)
    }

    /// Check if the error represents a failure.
    pub fn is_error(&self) -> (b: bool)
        ensures
            b == (*self != RknnError::Success),
    {
        !self.is_success()
    }

    /// The description of the error, as its `Display` writes it.
    pub fn message(&self) -> (s: String)
        ensures
            s@ == message_of(*self),
    {
        match self {
            RknnError::Success => "Execute succeed".to_owned(),
            RknnError::Fail => "Execute failed".to_owned(),
            RknnError::Timeout => "Execute timeout".to_owned(),
            RknnError::DeviceUnavailable => "Device is unavailable".to_owned(),
            RknnError::MallocFail => "Memory malloc fail".to_owned(),
            RknnError::ParamInvalid => "Parameter is invalid".to_owned(),
            RknnError::ModelInvalid => "Model is invalid".to_owned(),
            RknnError::CtxInvalid => "Context is invalid".to_owned(),
            RknnError::InputInvalid => "Input is invalid".to_owned(),
            RknnError::OutputInvalid => "Output is invalid".to_owned(),
            RknnError::DeviceUnmatch => "The device is unmatch, please update rknn sdk and npu driver/firmware".to_owned(),
            RknnError::IncompatiblePreCompileModel => "This RKNN model use pre_compile mode, but not compatible with current driver".to_owned(),
            RknnError::IncompatibleOptimizationLevelVersion => "This RKNN model set optimization level, but not compatible with current driver".to_owned(),
            RknnError::TargetPlatformUnmatch => "This RKNN model set target platform, but not compatible with current platform".to_owned(),
            RknnError::Unknown(code) => {
                let digits = i32_decimal(*code);
                let mut text = "Unknown error code: ".to_owned();
                text.append(digits.as_str());
                text
            },
        }
    }
}

/// Quantization types of RKNN tensors.
pub const RKNN_TENSOR_QNT_NONE: u32 = 0;

pub const RKNN_TENSOR_QNT_DFP: u32 = 1;

pub const RKNN_TENSOR_QNT_AFFINE_ASYMMETRIC: u32 = 2;

pub const RKNN_TENSOR_QNT_MAX: u32 = 3;

/// Whether a model whose first input has quantization type `qnt_type` is
/// quantized: not for `RKNN_TENSOR_QNT_NONE`, yes for the other defined
/// types, and `None` for a type the runtime does not define.
pub fn is_quantized(qnt_type: u32) -> (q: Option<bool>)
    ensures
        q == (if qnt_type == RKNN_TENSOR_QNT_NONE {
            Some(false)
        } else if qnt_type <= RKNN_TENSOR_QNT_MAX {
            Some(true)
        } else {
            None
        }),
{
    match qnt_type {
        RKNN_TENSOR_QNT_NONE => Some(false),
        RKNN_TENSOR_QNT_DFP => Some(true),
        RKNN_TENSOR_QNT_AFFINE_ASYMMETRIC => Some(true),
        RKNN_TENSOR_QNT_MAX => Some(true),
        _ => None,
    }
}

/// The shape of a tensor: the first `n_dims` of its dimensions.
pub fn tensor_shape(dims: &[u32], n_dims: u32) -> (shape: Vec<u32>)
    requires
        n_dims <= dims@.len(),
    ensures
        shape@ == dims@.subrange(0, n_dims as int),
{
    let mut shape: Vec<u32> = Vec::new();
    let mut i: usize = 0;
    while i < n_dims as usize
        invariant
            i <= n_dims <= dims@.len(),
            shape@ == dims@.subrange(0, i as int),
        decreases n_dims - i,
    {
        shape.push(dims[i]);
        i = i + 1;
    }
    shape
}

/// Law of the codes: converting any raw code to an error and back gives the
/// code again.
pub proof fn lemma_code_round_trip(code: i32)
    ensures
        code_of(error_of_code(code)) == code,
        is_canonical(error_of_code(code)),
{
}

/// Law of the errors: converting an error to its code and back gives the
/// error again, exactly when it is canonical (it is not `Unknown` of a code
/// that has a variant of its own).
pub proof fn lemma_error_round_trip(e: RknnError)
    ensures
        error_of_code(code_of(e)) == e <==> is_canonical(e),
{
}

/// Law of success: an error converted from a code is a success exactly when
/// the code is `RKNN_SUCCESS`.
pub proof fn lemma_success_code(code: i32)
    ensures
        (error_of_code(code) == RknnError::Success) <==> code == RKNN_SUCCESS,
{
}

/// Law of the named codes: each variant stands for the result code that
/// the runtime documents for it, `0` for success and `-1` down to `-13` for
/// the errors, and converting that code gives the variant back.
pub proof fn lemma_variant_codes()
    ensures
        code_of(RknnError::Success) == 0i32,
        code_of(RknnError::Fail) == -1i32,
        code_of(RknnError::Timeout) == -2i32,
        code_of(RknnError::DeviceUnavailable) == -3i32,
        code_of(RknnError::MallocFail) == -4i32,
        code_of(RknnError::ParamInvalid) == -5i32,
        code_of(RknnError::ModelInvalid) == -6i32,
        code_of(RknnError::CtxInvalid) == -7i32,
        code_of(RknnError::InputInvalid) == -8i32,
        code_of(RknnError::OutputInvalid) == -9i32,
        code_of(RknnError::DeviceUnmatch) == -10i32,
        code_of(RknnError::IncompatiblePreCompileModel) == -11i32,
        code_of(RknnError::IncompatibleOptimizationLevelVersion) == -12i32,
        code_of(RknnError::TargetPlatformUnmatch) == -13i32,
        error_of_code(0i32) == RknnError::Success,
        error_of_code(-1i32) == RknnError::Fail,
        error_of_code(-2i32) == RknnError::Timeout,
        error_of_code(-3i32) == RknnError::DeviceUnavailable,
        error_of_code(-4i32) == RknnError::MallocFail,
        error_of_code(-5i32) == RknnError::ParamInvalid,
        error_of_code(-6i32) == RknnError::ModelInvalid,
        error_of_code(-7i32) == RknnError::CtxInvalid,
        error_of_code(-8i32) == RknnError::InputInvalid,
        error_of_code(-9i32) == RknnError::OutputInvalid,
        error_of_code(-10i32) == RknnError::DeviceUnmatch,
        error_of_code(-11i32) == RknnError::IncompatiblePreCompileModel,
        error_of_code(-12i32) == RknnError::IncompatibleOptimizationLevelVersion,
        error_of_code(-13i32) == RknnError::TargetPlatformUnmatch,
{
}

/// Law of the constants: each variant has the code of the constant named
/// for it.
pub proof fn lemma_variant_constants()
    ensures
        code_of(RknnError::Success) == RKNN_SUCCESS,
        code_of(RknnError::Fail) == RKNN_ERR_FAIL,
        code_of(RknnError::Timeout) == RKNN_ERR_TIMEOUT,
        code_of(RknnError::DeviceUnavailable) == RKNN_ERR_DEVICE_UNAVAILABLE,
        code_of(RknnError::MallocFail) == RKNN_ERR_MALLOC_FAIL,
        code_of(RknnError::ParamInvalid) == RKNN_ERR_PARAM_INVALID,
        code_of(RknnError::ModelInvalid) == RKNN_ERR_MODEL_INVALID,
        code_of(RknnError::CtxInvalid) == RKNN_ERR_CTX_INVALID,
        code_of(RknnError::InputInvalid) == RKNN_ERR_INPUT_INVALID,
        code_of(RknnError::OutputInvalid) == RKNN_ERR_OUTPUT_INVALID,
        code_of(RknnError::DeviceUnmatch) == RKNN_ERR_DEVICE_UNMATCH,
        code_of(RknnError::IncompatiblePreCompileModel) == RKNN_ERR_INCOMPATILE_PRE_COMPILE_MODEL,
        code_of(RknnError::IncompatibleOptimizationLevelVersion) == RKNN_ERR_INCOMPATILE_OPTIMIZATION_LEVEL_VERSION,
        code_of(RknnError::TargetPlatformUnmatch) == RKNN_ERR_TARGET_PLATFORM_UNMATCH,
{
}

} // verus!
