//! The host's result codes as a closed set of named errors.

use crate::text::{i32_text, push_i32};
use vstd::prelude::*;
use vstd::std_specs::convert::FromSpecImpl;
use vstd::string::StringExecFns;

verus! {

/// Result of a host call that can fail.
pub type VcmpResult<T> = Result<T, VcmpError>;

/// A result code of the host, by name.
///
/// Codes `0..=8` and `i32::MAX` have a name of their own; every other code is
/// kept as it came in `Unknown`.
#[derive(Debug, Clone, Copy, PartialEq, Eq, Structural)]
pub enum VcmpError {
    NoError,
    NoSuchEntity,
    BufferTooSmall,
    TooLargeInput,
    ArgumentOutOfBounds,
    NullArgument,
    PoolExhausted,
    InvalidName,
    RequestDenied,
    ForceSize,
    Unknown(i32),
}

/// Whether `code` has a named variant.
pub open spec fn is_known_code(code: i32) -> bool {
    0 <= code <= 8 || code == i32::MAX
}

/// The error that a result code stands for.
pub open spec fn error_of_code(code: i32) -> VcmpError {
    if code == 0 {
        VcmpError::NoError
    } else if code == 1 {
        VcmpError::NoSuchEntity
    } else if code == 2 {
        VcmpError::BufferTooSmall
    } else if code == 3 {
        VcmpError::TooLargeInput
    } else if code == 4 {
        VcmpError::ArgumentOutOfBounds
    } else if code == 5 {
        VcmpError::NullArgument
    } else if code == 6 {
        VcmpError::PoolExhausted
    } else if code == 7 {
        VcmpError::InvalidName
    } else if code == 8 {
        VcmpError::RequestDenied
    } else if code == i32::MAX {
        VcmpError::ForceSize
    } else {
        VcmpError::Unknown(code)
    }
}

/// The result code that an error is sent as.
pub open spec fn code_of_error(error: VcmpError) -> i32 {
    match error {
        VcmpError::NoError => 0,
        VcmpError::NoSuchEntity => 1,
        VcmpError::BufferTooSmall => 2,
        VcmpError::TooLargeInput => 3,
        VcmpError::ArgumentOutOfBounds => 4,
        VcmpError::NullArgument => 5,
        VcmpError::PoolExhausted => 6,
        VcmpError::InvalidName => 7,
        VcmpError::RequestDenied => 8,
        VcmpError::ForceSize => i32::MAX,
        VcmpError::Unknown(code) => code,
    }
}

impl From<i32> for VcmpError {
    fn from(value: i32) -> (error: Self) {
        match value {
            0 => VcmpError::NoError,
            1 => VcmpError::NoSuchEntity,
            2 => VcmpError::BufferTooSmall,
            3 => VcmpError::TooLargeInput,
            4 => VcmpError::ArgumentOutOfBounds,
            5 => VcmpError::NullArgument,
            6 => VcmpError::PoolExhausted,
            7 => VcmpError::InvalidName,
            8 => VcmpError::RequestDenied,
            0x7fff_ffff => VcmpError::ForceSize,
            _ => VcmpError::Unknown(value),
        }
    }
}

impl FromSpecImpl<i32> for VcmpError {
    open spec fn obeys_from_spec() -> bool {
        true
    }

    open spec fn from_spec(value: i32) -> Self {
        error_of_code(value)
    }
}

impl From<VcmpError> for i32 {
    fn from(val: VcmpError) -> (code: i32) {
        match val {
            VcmpError::NoError => 0,
            VcmpError::NoSuchEntity => 1,
            VcmpError::BufferTooSmall => 2,
            VcmpError::TooLargeInput => 3,
            VcmpError::ArgumentOutOfBounds => 4,
            VcmpError::NullArgument => 5,
            VcmpError::PoolExhausted => 6,
            VcmpError::InvalidName => 7,
            VcmpError::RequestDenied => 8,
            VcmpError::ForceSize => i32::MAX,
            VcmpError::Unknown(x) => x,
        }
    }
}

impl FromSpecImpl<VcmpError> for i32 {
    open spec fn obeys_from_spec() -> bool {
        true
    }

    open spec fn from_spec(val: VcmpError) -> i32 {
        code_of_error(val)
    }
}

/// Every result code survives the way to an error and back.
pub proof fn lemma_code_round_trip(code: i32)
    ensures
        code_of_error(error_of_code(code)) == code,
{
}

/// A code without a name of its own becomes `Unknown` with the code inside,
/// and `Unknown` gives that code back.
pub proof fn lemma_unknown_code_is_kept(code: i32)
    requires
        !is_known_code(code),
    ensures
        error_of_code(code) == VcmpError::Unknown(code),
        code_of_error(VcmpError::Unknown(code)) == code,
{
}

/// What `VcmpError::to_string` writes for an error.
pub open spec fn error_text(error: VcmpError) -> Seq<char> {
    match error {
        VcmpError::NoError => "无错误"@,
        VcmpError::NoSuchEntity => "目标实体不存在"@,
        VcmpError::BufferTooSmall => "缓冲区大小不足"@,
        VcmpError::TooLargeInput => "输入数据过大"@,
        VcmpError::ArgumentOutOfBounds => "参数超出有效范围"@,
        VcmpError::NullArgument => "接收到非法空参数"@,
        VcmpError::PoolExhausted => "资源池已耗尽"@,
        VcmpError::InvalidName => "无效名称"@,
        VcmpError::RequestDenied => "请求被拒绝"@,
        VcmpError::ForceSize => "vcmp 不知道发生了什么, 所以丢了个 ForceSize 过来"@,
        VcmpError::Unknown(code) => "未知错误码 "@ + i32_text(code),
    }
}

impl VcmpError {
    /// A sentence for a person to read; `Unknown` names its code in decimal.
    pub fn to_string(&self) -> (text: String)
        ensures
            text@ == error_text(*self),
    {
        match self {
            VcmpError::NoError => String::from_str("无错误"),
            VcmpError::NoSuchEntity => String::from_str("目标实体不存在"),
            VcmpError::BufferTooSmall => String::from_str("缓冲区大小不足"),
            VcmpError::TooLargeInput => String::from_str("输入数据过大"),
            VcmpError::ArgumentOutOfBounds => String::from_str("参数超出有效范围"),
            VcmpError::NullArgument => String::from_str("接收到非法空参数"),
            VcmpError::PoolExhausted => String::from_str("资源池已耗尽"),
            VcmpError::InvalidName => String::from_str("无效名称"),
            VcmpError::RequestDenied => String::from_str("请求被拒绝"),
            VcmpError::ForceSize => String::from_str(
                "vcmp 不知道发生了什么, 所以丢了个 ForceSize 过来",
            ),
            VcmpError::Unknown(code) => {
                let mut text = String::from_str("未知错误码 ");
                push_i32(&mut text, *code);
                text
            },
        }
    }
}

/// Reads the code of a call that reports nothing but success or failure.
pub open spec fn status_of_code(code: i32) -> VcmpResult<()> {
    if code == 0 {
        Ok(())
    } else {
        Err(error_of_code(code))
    }
}

/// Turns the code that a host call returned into a result: zero is success,
/// any other code is the error it stands for.
pub fn read_status(code: i32) -> (result: VcmpResult<()>)
    ensures
        result == status_of_code(code),
{
    if code != 0 {
        Err(VcmpError::from(code))
    } else {
        Ok(())
    }
}

/// Code zero reads as success; any other code reads as a failure with the
/// error of that code, which is never `NoError`.
pub proof fn lemma_status_of_code(code: i32)
    ensures
        code == 0 ==> status_of_code(code) == Ok::<(), VcmpError>(()),
        code != 0 ==> status_of_code(code) == Err::<(), VcmpError>(error_of_code(code)),
        code != 0 ==> error_of_code(code) != VcmpError::NoError,
{
}

} // verus!
