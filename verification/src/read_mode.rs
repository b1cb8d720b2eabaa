//! Frame modes: how a generated service finds the end of one message in a
//! byte stream, and the canonical fields that a template reads for each mode.

use vstd::prelude::*;

verus! {

/// Frame mode as it is written in a configuration.
#[derive(Debug, Clone, Copy, PartialEq, Eq)]
pub enum YamlReadMode {
    Lines { max_line_len: Option<usize> },
    FixedSize { frame_size: usize },
    Delimited {
        /// Delimiter byte (0-255), e.g. 10 == '\n'
        delim: u8,
        max_len: Option<usize>,
    },
    LengthPrefixed {
        /// 1, 2 or 4 bytes of length
        len_bytes: usize,
        big_endian: bool,
        max_len: Option<usize>,
    },
}

/// Why a frame mode was rejected.
#[derive(Debug, Clone, Copy, PartialEq, Eq)]
pub enum ReadModeError {
    /// The width of the length prefix is not 1, 2 or 4 bytes.
    InvalidLenBytes { len_bytes: usize },
}

/// The widths that a length prefix may have.
pub open spec fn valid_len_bytes(len_bytes: usize) -> bool {
    len_bytes == 1 || len_bytes == 2 || len_bytes == 4
}

/// A frame mode is accepted unless it is length-prefixed with a bad width.
pub open spec fn mode_accepted(mode: YamlReadMode) -> bool {
    match mode {
        YamlReadMode::LengthPrefixed { len_bytes, .. } => valid_len_bytes(len_bytes),
        _ => true,
    }
}

/// The expression that decodes a length prefix of the given width and byte
/// order. One byte has no byte order.
pub open spec fn lp_parse_len_text(len_bytes: usize, big_endian: bool) -> Seq<char>
    recommends
        valid_len_bytes(len_bytes),
{
    if len_bytes == 1 {
        "let frame_len: usize = len_buf[0] as usize;"@
    } else if len_bytes == 2 {
        if big_endian {
            "let frame_len: usize = u16::from_be_bytes([len_buf[0], len_buf[1]]) as usize;"@
        } else {
            "let frame_len: usize = u16::from_le_bytes([len_buf[0], len_buf[1]]) as usize;"@
        }
    } else {
        if big_endian {
            "let frame_len: usize = u32::from_be_bytes([len_buf[0], len_buf[1], len_buf[2], len_buf[3]]) as usize;"@
        } else {
            "let frame_len: usize = u32::from_le_bytes([len_buf[0], len_buf[1], len_buf[2], len_buf[3]]) as usize;"@
        }
    }
}

/// The outcome of synthesising a decode expression: the expression for a
/// width of 1, 2 or 4 bytes, the rejection of every other width.
pub open spec fn lp_parse_len_outcome(len_bytes: usize, big_endian: bool) -> Result<
    Seq<char>,
    ReadModeError,
> {
    if valid_len_bytes(len_bytes) {
        Ok(lp_parse_len_text(len_bytes, big_endian))
    } else {
        Err(ReadModeError::InvalidLenBytes { len_bytes })
    }
}

/// Synthesises the decode expression for a length prefix. A width other
/// than 1, 2 or 4 bytes is rejected, whatever the byte order.
pub fn lp_parse_len_snippet(len_bytes: usize, big_endian: bool) -> (res: Result<
    String,
    ReadModeError,
>)
    ensures
        res is Ok <==> (len_bytes == 1 || len_bytes == 2 || len_bytes == 4),
        match res {
            Ok(code) => lp_parse_len_outcome(len_bytes, big_endian) == Ok::<
                Seq<char>,
                ReadModeError,
            >(code@),
            Err(e) => lp_parse_len_outcome(len_bytes, big_endian) == Err::<
                Seq<char>,
                ReadModeError,
            >(e),
        },
{
    if len_bytes == 1 {
        Ok("let frame_len: usize = len_buf[0] as usize;".to_owned())
    } else if len_bytes == 2 {
        if big_endian {
            Ok(
                "let frame_len: usize = u16::from_be_bytes([len_buf[0], len_buf[1]]) as usize;".to_owned(),
            )
        } else {
            Ok(
                "let frame_len: usize = u16::from_le_bytes([len_buf[0], len_buf[1]]) as usize;".to_owned(),
            )
        }
    } else if len_bytes == 4 {
        if big_endian {
            Ok(
                "let frame_len: usize = u32::from_be_bytes([len_buf[0], len_buf[1], len_buf[2], len_buf[3]]) as usize;".to_owned(),
            )
        } else {
            Ok(
                "let frame_len: usize = u32::from_le_bytes([len_buf[0], len_buf[1], len_buf[2], len_buf[3]]) as usize;".to_owned(),
            )
        }
    } else {
        Err(ReadModeError::InvalidLenBytes { len_bytes })
    }
}

/// Canonical frame-mode fields, as a template reads them: one flag per mode
/// and the fields of each mode side by side.
#[derive(Debug, Clone, PartialEq, Eq)]
pub struct ReadModeTemplateCtx {
    // lines mode
    pub max_line_len: Option<usize>,
    // fixed_size mode
    pub frame_size: Option<usize>,
    // delimited mode
    pub delim_byte: Option<u8>,
    pub delim_max_len: Option<usize>,
    // length_prefixed mode
    pub lp_len_bytes: Option<usize>,
    pub lp_big_endian: Option<bool>,
    pub lp_max_len: Option<usize>,
    pub lp_parse_len_code: String,
    // mode flags
    pub is_lines: bool,
    pub is_fixed_size: bool,
    pub is_delimited: bool,
    pub is_length_prefixed: bool,
}

/// What a `ReadModeTemplateCtx` holds, with the decode expression as text.
pub struct ReadModeFields {
    pub max_line_len: Option<usize>,
    pub frame_size: Option<usize>,
    pub delim_byte: Option<u8>,
    pub delim_max_len: Option<usize>,
    pub lp_len_bytes: Option<usize>,
    pub lp_big_endian: Option<bool>,
    pub lp_max_len: Option<usize>,
    pub lp_parse_len_code: Seq<char>,
    pub is_lines: bool,
    pub is_fixed_size: bool,
    pub is_delimited: bool,
    pub is_length_prefixed: bool,
}

impl View for ReadModeTemplateCtx {
    type V = ReadModeFields;

    open spec fn view(&self) -> ReadModeFields {
        ReadModeFields {
            max_line_len: self.max_line_len,
            frame_size: self.frame_size,
            delim_byte: self.delim_byte,
            delim_max_len: self.delim_max_len,
            lp_len_bytes: self.lp_len_bytes,
            lp_big_endian: self.lp_big_endian,
            lp_max_len: self.lp_max_len,
            lp_parse_len_code: self.lp_parse_len_code@,
            is_lines: self.is_lines,
            is_fixed_size: self.is_fixed_size,
            is_delimited: self.is_delimited,
            is_length_prefixed: self.is_length_prefixed,
        }
    }
}

/// No mode selected and no field populated.
pub open spec fn empty_fields() -> ReadModeFields {
    ReadModeFields {
        max_line_len: None,
        frame_size: None,
        delim_byte: None,
        delim_max_len: None,
        lp_len_bytes: None,
        lp_big_endian: None,
        lp_max_len: None,
        lp_parse_len_code: Seq::empty(),
        is_lines: false,
        is_fixed_size: false,
        is_delimited: false,
        is_length_prefixed: false,
    }
}

/// The fields of lines mode with the given limit: what the reduced,
/// direct-parameter form of a configuration always selects.
pub open spec fn lines_fields(max_line_len: Option<usize>) -> ReadModeFields {
    ReadModeFields { is_lines: true, max_line_len, ..empty_fields() }
}

/// The canonical fields of a frame mode: its flag set, its own fields
/// populated, everything else left empty.
pub open spec fn resolved_fields(mode: YamlReadMode) -> ReadModeFields
    recommends
        mode_accepted(mode),
{
    match mode {
        YamlReadMode::Lines { max_line_len } => lines_fields(max_line_len),
        YamlReadMode::FixedSize { frame_size } => ReadModeFields {
            is_fixed_size: true,
            frame_size: Some(frame_size),
            ..empty_fields()
        },
        YamlReadMode::Delimited { delim, max_len } => ReadModeFields {
            is_delimited: true,
            delim_byte: Some(delim),
            delim_max_len: max_len,
            ..empty_fields()
        },
        YamlReadMode::LengthPrefixed { len_bytes, big_endian, max_len } => ReadModeFields {
            is_length_prefixed: true,
            lp_len_bytes: Some(len_bytes),
            lp_big_endian: Some(big_endian),
            lp_max_len: max_len,
            lp_parse_len_code: lp_parse_len_text(len_bytes, big_endian),
            ..empty_fields()
        },
    }
}

/// The outcome of resolving a frame mode: its canonical fields, or the
/// rejection of a length prefix whose width is not 1, 2 or 4.
pub open spec fn resolve_outcome(mode: YamlReadMode) -> Result<ReadModeFields, ReadModeError> {
    match mode {
        YamlReadMode::LengthPrefixed { len_bytes, .. } if !valid_len_bytes(len_bytes) => Err(
            ReadModeError::InvalidLenBytes { len_bytes },
        ),
        _ => Ok(resolved_fields(mode)),
    }
}

/// How many of the four mode flags are set.
pub open spec fn flag_count(f: ReadModeFields) -> nat {
    (if f.is_lines { 1nat } else { 0nat }) + (if f.is_fixed_size { 1nat } else { 0nat })
        + (if f.is_delimited { 1nat } else { 0nat })
        + (if f.is_length_prefixed { 1nat } else { 0nat })
}

/// No field of lines mode is populated.
pub open spec fn lines_part_absent(f: ReadModeFields) -> bool {
    f.max_line_len is None
}

/// No field of fixed-size mode is populated.
pub open spec fn fixed_size_part_absent(f: ReadModeFields) -> bool {
    f.frame_size is None
}

/// No field of delimited mode is populated.
pub open spec fn delimited_part_absent(f: ReadModeFields) -> bool {
    f.delim_byte is None && f.delim_max_len is None
}

/// No field of length-prefixed mode is populated.
pub open spec fn length_prefixed_part_absent(f: ReadModeFields) -> bool {
    &&& f.lp_len_bytes is None
    &&& f.lp_big_endian is None
    &&& f.lp_max_len is None
    &&& f.lp_parse_len_code == Seq::<char>::empty()
}

/// Exactly one mode is selected, only that mode's fields are populated, and
/// a length prefix has an accepted width together with its decode expression.
pub open spec fn well_formed(f: ReadModeFields) -> bool {
    &&& flag_count(f) == 1
    &&& !f.is_lines ==> lines_part_absent(f)
    &&& !f.is_fixed_size ==> fixed_size_part_absent(f)
    &&& f.is_fixed_size ==> f.frame_size is Some
    &&& !f.is_delimited ==> delimited_part_absent(f)
    &&& f.is_delimited ==> f.delim_byte is Some
    &&& !f.is_length_prefixed ==> length_prefixed_part_absent(f)
    &&& f.is_length_prefixed ==> {
        &&& f.lp_len_bytes is Some
        &&& f.lp_big_endian is Some
        &&& valid_len_bytes(f.lp_len_bytes->0)
        &&& f.lp_parse_len_code == lp_parse_len_text(f.lp_len_bytes->0, f.lp_big_endian->0)
    }
}

/// The frame mode that well-formed fields stand for.
pub open spec fn mode_of(f: ReadModeFields) -> YamlReadMode
    recommends
        well_formed(f),
{
    if f.is_lines {
        YamlReadMode::Lines { max_line_len: f.max_line_len }
    } else if f.is_fixed_size {
        YamlReadMode::FixedSize { frame_size: f.frame_size->0 }
    } else if f.is_delimited {
        YamlReadMode::Delimited { delim: f.delim_byte->0, max_len: f.delim_max_len }
    } else {
        YamlReadMode::LengthPrefixed {
            len_bytes: f.lp_len_bytes->0,
            big_endian: f.lp_big_endian->0,
            max_len: f.lp_max_len,
        }
    }
}

impl Default for ReadModeTemplateCtx {
    /// No mode selected yet: every flag false and every field empty.
    fn default() -> (ctx: Self)
        ensures
            ctx@ == empty_fields(),
    {
        ReadModeTemplateCtx {
            max_line_len: None,
            frame_size: None,
            delim_byte: None,
            delim_max_len: None,
            lp_len_bytes: None,
            lp_big_endian: None,
            lp_max_len: None,
            lp_parse_len_code: String::new(),
            is_lines: false,
            is_fixed_size: false,
            is_delimited: false,
            is_length_prefixed: false,
        }
    }
}

impl ReadModeTemplateCtx {
    /// Lines mode with the given limit.
    pub fn lines(max_line_len: Option<usize>) -> (ctx: Self)
        ensures
            ctx@ == lines_fields(max_line_len),
            well_formed(ctx@),
    {
        let mut ctx = ReadModeTemplateCtx::default();
        ctx.is_lines = true;
        ctx.max_line_len = max_line_len;
        ctx
    }

    /// Resolves a frame mode into its canonical fields. The only mode that
    /// is rejected is a length prefix whose width is not 1, 2 or 4 bytes.
    pub fn resolve(mode: YamlReadMode) -> (res: Result<Self, ReadModeError>)
        ensures
            res is Ok <==> mode_accepted(mode),
            match res {
                Ok(ctx) => resolve_outcome(mode) == Ok::<ReadModeFields, ReadModeError>(ctx@)
                    && well_formed(ctx@),
                Err(e) => resolve_outcome(mode) == Err::<ReadModeFields, ReadModeError>(e),
            },
    {
        let mut ctx = ReadModeTemplateCtx::default();
        match mode {
            YamlReadMode::Lines { max_line_len } => {
                ctx.is_lines = true;
                ctx.max_line_len = max_line_len;
            },
            YamlReadMode::FixedSize { frame_size } => {
                ctx.is_fixed_size = true;
                ctx.frame_size = Some(frame_size);
            },
            YamlReadMode::Delimited { delim, max_len } => {
                ctx.is_delimited = true;
                ctx.delim_byte = Some(delim);
                ctx.delim_max_len = max_len;
            },
            YamlReadMode::LengthPrefixed { len_bytes, big_endian, max_len } => {
                match lp_parse_len_snippet(len_bytes, big_endian) {
                    Ok(code) => {
                        ctx.is_length_prefixed = true;
                        ctx.lp_len_bytes = Some(len_bytes);
                        ctx.lp_big_endian = Some(big_endian);
                        ctx.lp_max_len = max_len;
                        ctx.lp_parse_len_code = code;
                    },
                    Err(e) => {
                        return Err(e);
                    },
                }
            },
        }
        Ok(ctx)
    }
}

impl ReadModeError {
    /// The message that names the failure.
    pub fn message(&self) -> (text: String)
        ensures
            text@ == "len_bytes must be 1, 2 or 4"@,
    {
        "len_bytes must be 1, 2 or 4".to_owned()
    }
}

/// Every accepted mode resolves to exactly one set flag, and no field of
/// any other mode is populated.
pub proof fn lemma_exactly_one_mode(mode: YamlReadMode)
    requires
        mode_accepted(mode),
    ensures
        flag_count(resolved_fields(mode)) == 1,
        resolved_fields(mode).is_lines <==> mode is Lines,
        resolved_fields(mode).is_fixed_size <==> mode is FixedSize,
        resolved_fields(mode).is_delimited <==> mode is Delimited,
        resolved_fields(mode).is_length_prefixed <==> mode is LengthPrefixed,
        !(mode is Lines) ==> lines_part_absent(resolved_fields(mode)),
        !(mode is FixedSize) ==> fixed_size_part_absent(resolved_fields(mode)),
        !(mode is Delimited) ==> delimited_part_absent(resolved_fields(mode)),
        !(mode is LengthPrefixed) ==> length_prefixed_part_absent(resolved_fields(mode)),
        well_formed(resolved_fields(mode)),
{
}

/// Resolution loses nothing: the mode can be read back from its fields.
pub proof fn lemma_mode_round_trip(mode: YamlReadMode)
    requires
        mode_accepted(mode),
    ensures
        mode_of(resolved_fields(mode)) == mode,
{
}

/// Well-formed fields are exactly those of some accepted mode.
pub proof fn lemma_well_formed_is_resolved(f: ReadModeFields)
    requires
        well_formed(f),
    ensures
        mode_accepted(mode_of(f)),
        resolved_fields(mode_of(f)) == f,
{
    assert(resolved_fields(mode_of(f)).lp_parse_len_code =~= f.lp_parse_len_code);
}

/// A length prefix is rejected exactly when its width is not 1, 2 or 4,
/// whatever its byte order and limit; an accepted one carries the decode
/// expression of its width and byte order.
pub proof fn lemma_length_prefix_gate(len_bytes: usize, big_endian: bool, max_len: Option<usize>)
    ensures
        resolve_outcome(YamlReadMode::LengthPrefixed { len_bytes, big_endian, max_len }) is Ok
            <==> (len_bytes == 1 || len_bytes == 2 || len_bytes == 4),
        lp_parse_len_outcome(len_bytes, big_endian) is Ok <==> (len_bytes == 1 || len_bytes == 2
            || len_bytes == 4),
        lp_parse_len_outcome(len_bytes, big_endian) is Ok <==> lp_parse_len_outcome(
            len_bytes,
            !big_endian,
        ) is Ok,
        !valid_len_bytes(len_bytes) ==> resolve_outcome(
            YamlReadMode::LengthPrefixed { len_bytes, big_endian, max_len },
        ) == Err::<ReadModeFields, ReadModeError>(ReadModeError::InvalidLenBytes { len_bytes }),
        valid_len_bytes(len_bytes) ==> resolve_outcome(
            YamlReadMode::LengthPrefixed { len_bytes, big_endian, max_len },
        )->Ok_0.lp_parse_len_code == lp_parse_len_outcome(len_bytes, big_endian)->Ok_0,
{
}

/// One byte of length has no byte order: its decode expression is the same
/// either way and reads no second byte.
pub proof fn lemma_one_byte_ignores_order(a: bool, b: bool)
    ensures
        lp_parse_len_text(1, a) == lp_parse_len_text(1, b),
{
}

/// For two and four bytes of length the decode expression names the byte
/// order: big and little endian give different expressions, each of which
/// reads the bytes in its own order.
pub proof fn lemma_order_is_named(len_bytes: usize)
    requires
        len_bytes == 2 || len_bytes == 4,
    ensures
        lp_parse_len_text(len_bytes, true) != lp_parse_len_text(len_bytes, false),
        lp_parse_len_text(len_bytes, true).subrange(28, 41) == "from_be_bytes"@,
        lp_parse_len_text(len_bytes, false).subrange(28, 41) == "from_le_bytes"@,
{
    reveal_strlit("let frame_len: usize = u16::from_be_bytes([len_buf[0], len_buf[1]]) as usize;");
    reveal_strlit("let frame_len: usize = u16::from_le_bytes([len_buf[0], len_buf[1]]) as usize;");
    reveal_strlit("let frame_len: usize = u32::from_be_bytes([len_buf[0], len_buf[1], len_buf[2], len_buf[3]]) as usize;");
    reveal_strlit("let frame_len: usize = u32::from_le_bytes([len_buf[0], len_buf[1], len_buf[2], len_buf[3]]) as usize;");
    reveal_strlit("from_be_bytes");
    reveal_strlit("from_le_bytes");
    assert(lp_parse_len_text(len_bytes, true)[33] == 'b');
    assert(lp_parse_len_text(len_bytes, false)[33] == 'l');
    assert(lp_parse_len_text(len_bytes, true).subrange(28, 41) =~= "from_be_bytes"@);
    assert(lp_parse_len_text(len_bytes, false).subrange(28, 41) =~= "from_le_bytes"@);
}

/// The decode expression names the width of the prefix: it decodes an
/// unsigned integer of sixteen bits for two bytes and of thirty-two bits
/// for four, so that the expressions of different widths differ.
pub proof fn lemma_width_is_named(big_endian: bool)
    ensures
        lp_parse_len_text(2, big_endian).subrange(23, 26) == "u16"@,
        lp_parse_len_text(4, big_endian).subrange(23, 26) == "u32"@,
        lp_parse_len_text(1, big_endian) != lp_parse_len_text(2, big_endian),
        lp_parse_len_text(1, big_endian) != lp_parse_len_text(4, big_endian),
        lp_parse_len_text(2, big_endian) != lp_parse_len_text(4, big_endian),
{
    reveal_strlit("let frame_len: usize = len_buf[0] as usize;");
    reveal_strlit("let frame_len: usize = u16::from_be_bytes([len_buf[0], len_buf[1]]) as usize;");
    reveal_strlit("let frame_len: usize = u16::from_le_bytes([len_buf[0], len_buf[1]]) as usize;");
    reveal_strlit("let frame_len: usize = u32::from_be_bytes([len_buf[0], len_buf[1], len_buf[2], len_buf[3]]) as usize;");
    reveal_strlit("let frame_len: usize = u32::from_le_bytes([len_buf[0], len_buf[1], len_buf[2], len_buf[3]]) as usize;");
    reveal_strlit("u16");
    reveal_strlit("u32");
    assert(lp_parse_len_text(1, big_endian)[23] == 'l');
    assert(lp_parse_len_text(2, big_endian)[24] == '1');
    assert(lp_parse_len_text(4, big_endian)[24] == '3');
    assert(lp_parse_len_text(2, big_endian).subrange(23, 26) =~= "u16"@);
    assert(lp_parse_len_text(4, big_endian).subrange(23, 26) =~= "u32"@);
}

} // verus!
