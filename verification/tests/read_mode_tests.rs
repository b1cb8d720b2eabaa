use netgen::read_mode::{lp_parse_len_snippet, ReadModeError, ReadModeTemplateCtx, YamlReadMode};

fn flags(ctx: &ReadModeTemplateCtx) -> [bool; 4] {
    [ctx.is_lines, ctx.is_fixed_size, ctx.is_delimited, ctx.is_length_prefixed]
}

#[test]
fn default_selects_no_mode() {
    let ctx = ReadModeTemplateCtx::default();
    assert_eq!(flags(&ctx), [false, false, false, false]);
    assert_eq!(ctx.max_line_len, None);
    assert_eq!(ctx.frame_size, None);
    assert_eq!(ctx.delim_byte, None);
    assert_eq!(ctx.delim_max_len, None);
    assert_eq!(ctx.lp_len_bytes, None);
    assert_eq!(ctx.lp_big_endian, None);
    assert_eq!(ctx.lp_max_len, None);
    assert_eq!(ctx.lp_parse_len_code, "");
}

#[test]
fn lines_mode_sets_only_lines_fields() {
    let ctx = ReadModeTemplateCtx::resolve(YamlReadMode::Lines { max_line_len: Some(8192) })
        .unwrap();
    let expected = ReadModeTemplateCtx {
        is_lines: true,
        max_line_len: Some(8192),
        ..Default::default()
    };
    assert_eq!(ctx, expected);
    assert_eq!(flags(&ctx), [true, false, false, false]);
}

#[test]
fn lines_mode_without_limit() {
    let ctx = ReadModeTemplateCtx::resolve(YamlReadMode::Lines { max_line_len: None }).unwrap();
    let expected = ReadModeTemplateCtx { is_lines: true, ..Default::default() };
    assert_eq!(ctx, expected);
}

#[test]
fn lines_constructor_matches_resolution() {
    assert_eq!(
        ReadModeTemplateCtx::lines(Some(77)),
        ReadModeTemplateCtx::resolve(YamlReadMode::Lines { max_line_len: Some(77) }).unwrap()
    );
    assert_eq!(
        ReadModeTemplateCtx::lines(None),
        ReadModeTemplateCtx::resolve(YamlReadMode::Lines { max_line_len: None }).unwrap()
    );
}

#[test]
fn fixed_size_mode_sets_only_frame_size() {
    let ctx = ReadModeTemplateCtx::resolve(YamlReadMode::FixedSize { frame_size: 1024 }).unwrap();
    let expected = ReadModeTemplateCtx {
        is_fixed_size: true,
        frame_size: Some(1024),
        ..Default::default()
    };
    assert_eq!(ctx, expected);
    assert_eq!(flags(&ctx), [false, true, false, false]);
}

#[test]
fn delimited_mode_sets_only_delimiter_fields() {
    let ctx = ReadModeTemplateCtx::resolve(YamlReadMode::Delimited {
        delim: 10,
        max_len: Some(65535),
    })
    .unwrap();
    let expected = ReadModeTemplateCtx {
        is_delimited: true,
        delim_byte: Some(10),
        delim_max_len: Some(65535),
        ..Default::default()
    };
    assert_eq!(ctx, expected);
    assert_eq!(flags(&ctx), [false, false, true, false]);
}

#[test]
fn delimited_mode_takes_every_byte_value() {
    for delim in [0u8, 1, 127, 255] {
        let ctx = ReadModeTemplateCtx::resolve(YamlReadMode::Delimited { delim, max_len: None })
            .unwrap();
        assert_eq!(ctx.delim_byte, Some(delim));
        assert_eq!(ctx.delim_max_len, None);
        assert_eq!(flags(&ctx), [false, false, true, false]);
    }
}

#[test]
fn length_prefixed_mode_sets_only_prefix_fields() {
    let ctx = ReadModeTemplateCtx::resolve(YamlReadMode::LengthPrefixed {
        len_bytes: 2,
        big_endian: true,
        max_len: Some(65535),
    })
    .unwrap();
    let expected = ReadModeTemplateCtx {
        is_length_prefixed: true,
        lp_len_bytes: Some(2),
        lp_big_endian: Some(true),
        lp_max_len: Some(65535),
        lp_parse_len_code:
            "let frame_len: usize = u16::from_be_bytes([len_buf[0], len_buf[1]]) as usize;"
                .to_string(),
        ..Default::default()
    };
    assert_eq!(ctx, expected);
    assert_eq!(flags(&ctx), [false, false, false, true]);
}

#[test]
fn exactly_one_flag_for_every_mode() {
    let modes = [
        YamlReadMode::Lines { max_line_len: None },
        YamlReadMode::FixedSize { frame_size: 1 },
        YamlReadMode::Delimited { delim: 0, max_len: None },
        YamlReadMode::LengthPrefixed { len_bytes: 4, big_endian: false, max_len: None },
    ];
    for mode in modes {
        let ctx = ReadModeTemplateCtx::resolve(mode).unwrap();
        let set = flags(&ctx).iter().filter(|f| **f).count();
        assert_eq!(set, 1);
    }
}

#[test]
fn decode_expressions_for_the_five_cases() {
    assert_eq!(
        lp_parse_len_snippet(1, true).unwrap(),
        "let frame_len: usize = len_buf[0] as usize;"
    );
    assert_eq!(
        lp_parse_len_snippet(1, false).unwrap(),
        "let frame_len: usize = len_buf[0] as usize;"
    );
    assert_eq!(
        lp_parse_len_snippet(2, true).unwrap(),
        "let frame_len: usize = u16::from_be_bytes([len_buf[0], len_buf[1]]) as usize;"
    );
    assert_eq!(
        lp_parse_len_snippet(2, false).unwrap(),
        "let frame_len: usize = u16::from_le_bytes([len_buf[0], len_buf[1]]) as usize;"
    );
    assert_eq!(
        lp_parse_len_snippet(4, true).unwrap(),
        "let frame_len: usize = u32::from_be_bytes([len_buf[0], len_buf[1], len_buf[2], len_buf[3]]) as usize;"
    );
    assert_eq!(
        lp_parse_len_snippet(4, false).unwrap(),
        "let frame_len: usize = u32::from_le_bytes([len_buf[0], len_buf[1], len_buf[2], len_buf[3]]) as usize;"
    );
}

#[test]
fn decode_expression_is_refused_for_other_widths() {
    for len_bytes in [0usize, 3, 5, 6, 7, 8, 16, 64, usize::MAX] {
        for big_endian in [true, false] {
            assert_eq!(
                lp_parse_len_snippet(len_bytes, big_endian),
                Err(ReadModeError::InvalidLenBytes { len_bytes })
            );
        }
    }
}

#[test]
fn accepted_widths_always_resolve() {
    for len_bytes in [1usize, 2, 4] {
        for big_endian in [true, false] {
            for max_len in [None, Some(1usize), Some(65535)] {
                let ctx = ReadModeTemplateCtx::resolve(YamlReadMode::LengthPrefixed {
                    len_bytes,
                    big_endian,
                    max_len,
                })
                .unwrap();
                assert_eq!(ctx.lp_len_bytes, Some(len_bytes));
                assert_eq!(ctx.lp_big_endian, Some(big_endian));
                assert_eq!(ctx.lp_max_len, max_len);
                assert_eq!(Ok(ctx.lp_parse_len_code.clone()), lp_parse_len_snippet(len_bytes, big_endian));
                if len_bytes > 1 {
                    let order = if big_endian { "from_be_bytes" } else { "from_le_bytes" };
                    assert!(ctx.lp_parse_len_code.contains(order));
                } else {
                    assert!(!ctx.lp_parse_len_code.contains("_bytes"));
                }
            }
        }
    }
}

#[test]
fn other_widths_are_rejected() {
    for len_bytes in [0usize, 3, 5, 8, 16, usize::MAX] {
        for big_endian in [true, false] {
            let res = ReadModeTemplateCtx::resolve(YamlReadMode::LengthPrefixed {
                len_bytes,
                big_endian,
                max_len: Some(10),
            });
            assert_eq!(res, Err(ReadModeError::InvalidLenBytes { len_bytes }));
        }
    }
}

#[test]
fn rejection_message() {
    let err = ReadModeError::InvalidLenBytes { len_bytes: 3 };
    assert_eq!(err.message(), "len_bytes must be 1, 2 or 4");
}
