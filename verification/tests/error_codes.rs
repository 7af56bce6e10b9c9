use vcmp_bindings::error::{read_status, VcmpError};

#[test]
fn named_codes_decode_to_their_variants() {
    assert_eq!(VcmpError::from(0), VcmpError::NoError);
    assert_eq!(VcmpError::from(1), VcmpError::NoSuchEntity);
    assert_eq!(VcmpError::from(2), VcmpError::BufferTooSmall);
    assert_eq!(VcmpError::from(3), VcmpError::TooLargeInput);
    assert_eq!(VcmpError::from(4), VcmpError::ArgumentOutOfBounds);
    assert_eq!(VcmpError::from(5), VcmpError::NullArgument);
    assert_eq!(VcmpError::from(6), VcmpError::PoolExhausted);
    assert_eq!(VcmpError::from(7), VcmpError::InvalidName);
    assert_eq!(VcmpError::from(8), VcmpError::RequestDenied);
    assert_eq!(VcmpError::from(i32::MAX), VcmpError::ForceSize);
}

#[test]
fn unknown_codes_are_kept() {
    assert_eq!(VcmpError::from(9), VcmpError::Unknown(9));
    assert_eq!(VcmpError::from(-1), VcmpError::Unknown(-1));
    assert_eq!(VcmpError::from(i32::MIN), VcmpError::Unknown(i32::MIN));
    assert_eq!(i32::from(VcmpError::Unknown(1234)), 1234);
}

#[test]
fn unknown_code_text_names_the_code() {
    assert_eq!(VcmpError::Unknown(-42).to_string(), "未知错误码 -42");
    assert_eq!(VcmpError::Unknown(i32::MIN).to_string(), "未知错误码 -2147483648");
    assert_eq!(VcmpError::NoSuchEntity.to_string(), "目标实体不存在");
}

#[test]
fn status_reads_zero_as_success() {
    assert_eq!(read_status(0), Ok(()));
    assert_eq!(read_status(6), Err(VcmpError::PoolExhausted));
    assert_eq!(read_status(77), Err(VcmpError::Unknown(77)));
}

#[test]
fn every_code_survives_the_way_there_and_back() {
    for code in (-20..=20).chain([i32::MIN, i32::MIN + 1, i32::MAX - 1, i32::MAX, 1 << 16]) {
        assert_eq!(i32::from(VcmpError::from(code)), code);
    }
}

#[test]
fn every_error_has_its_sentence() {
    let texts = [
        (VcmpError::NoError, "无错误"),
        (VcmpError::NoSuchEntity, "目标实体不存在"),
        (VcmpError::BufferTooSmall, "缓冲区大小不足"),
        (VcmpError::TooLargeInput, "输入数据过大"),
        (VcmpError::ArgumentOutOfBounds, "参数超出有效范围"),
        (VcmpError::NullArgument, "接收到非法空参数"),
        (VcmpError::PoolExhausted, "资源池已耗尽"),
        (VcmpError::InvalidName, "无效名称"),
        (VcmpError::RequestDenied, "请求被拒绝"),
        (VcmpError::ForceSize, "vcmp 不知道发生了什么, 所以丢了个 ForceSize 过来"),
        (VcmpError::Unknown(0), "未知错误码 0"),
        (VcmpError::Unknown(2147483646), "未知错误码 2147483646"),
    ];
    for (error, text) in texts {
        assert_eq!(error.to_string(), text);
    }
}
