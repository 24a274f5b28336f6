//! The option catalog: the fixed, name-sorted table of field-kind
//! definitions, and the binary search that resolves an option name against
//! it.
//!
//! The table's sortedness (in the order of [`crate::order::name_lt`]) is
//! proved once, as a postcondition of [`Catalog::new`]; the lookup's
//! correctness rests on it.

use vstd::prelude::*;

use crate::order::NameOrder;
use crate::order::lemma_name_lt_asym;
use crate::order::lemma_name_lt_trans;
use crate::order::name_lt;
use crate::order::name_order;

verus! {

/// How a field's value is marshalled and what shape of metadata and
/// descriptors it contributes.
#[derive(Clone, Copy, PartialEq, Eq, Structural, Debug)]
pub enum Strategy {
    /// One fixed-size value; one descriptor referencing it.
    Scalar,
    /// One calendar-time value, converted to a platform filetime at emission.
    SystemTime,
    /// One 32-bit seconds-since-1970 value, converted at emission.
    Time32,
    /// One 64-bit seconds-since-1970 value, converted at emission.
    Time64,
    /// One security-identifier byte sequence; one descriptor.
    Sid,
    /// One nul-terminated sequence; payload descriptor plus terminator
    /// descriptor.
    CStr,
    /// One counted sequence; a byte-size length slot plus payload descriptor.
    Counted,
    /// One variable-length slice; an element-count length slot plus payload
    /// descriptor.
    Slice,
    /// Begins a nested group of the following fields; metadata only.
    Struct,
    /// A nested group with an explicit member count; metadata only.
    RawStruct,
    /// As `RawStruct`, with the variable-count flag on the type code.
    RawStructSlice,
    /// Raw payload bytes with no metadata of their own.
    RawData,
    /// An explicitly typed field: metadata and one payload descriptor.
    RawField,
    /// As `RawField`, with the variable-count flag on the type code.
    RawFieldSlice,
    /// Explicitly typed metadata with no payload.
    RawMeta,
    /// As `RawMeta`, with the variable-count flag on the type code.
    RawMetaSlice,
}

impl Strategy {
    /// Whether the wire type code carries the variable-count flag.
    pub open spec fn spec_is_slice(self) -> bool {
        match self {
            Strategy::Slice => true,
            Strategy::RawStructSlice => true,
            Strategy::RawFieldSlice => true,
            Strategy::RawMetaSlice => true,
            _ => false,
        }
    }

    /// Whether the field contributes name and type bytes to the metadata
    /// block.
    pub open spec fn spec_has_metadata(self) -> bool {
        !(self is RawData)
    }

    /// How many data-descriptor blocks the field consumes at emission time.
    pub open spec fn spec_data_count(self) -> u8 {
        match self {
            Strategy::Struct => 0,
            Strategy::RawStruct => 0,
            Strategy::RawStructSlice => 0,
            Strategy::RawMeta => 0,
            Strategy::RawMetaSlice => 0,
            Strategy::CStr => 2,
            Strategy::Counted => 2,
            Strategy::Slice => 2,
            _ => 1,
        }
    }

    /// Whether the field's options may include a `tag` suboption.
    pub open spec fn spec_accepts_tag(self) -> bool {
        !(self is RawData)
    }

    /// Whether the field's options may include a `format` suboption.
    pub open spec fn spec_accepts_format(self) -> bool {
        match self {
            Strategy::Struct => false,
            Strategy::RawStruct => false,
            Strategy::RawStructSlice => false,
            Strategy::RawData => false,
            _ => true,
        }
    }

    /// Whether the field is followed by a braced group of member fields.
    pub open spec fn spec_wants_group(self) -> bool {
        self is Struct
    }

    /// Whether the field's first argument is an explicit wire type code.
    pub open spec fn spec_takes_type_code(self) -> bool {
        match self {
            Strategy::RawField => true,
            Strategy::RawFieldSlice => true,
            Strategy::RawMeta => true,
            Strategy::RawMetaSlice => true,
            _ => false,
        }
    }

    /// Whether the field's first argument is an explicit member count.
    pub open spec fn spec_takes_member_count(self) -> bool {
        self is RawStruct || self is RawStructSlice
    }

    #[verifier::when_used_as_spec(spec_is_slice)]
    pub fn is_slice(self) -> (r: bool)
        ensures
            r == self.spec_is_slice(),
    {
        match self {
            Strategy::Slice => true,
            Strategy::RawStructSlice => true,
            Strategy::RawFieldSlice => true,
            Strategy::RawMetaSlice => true,
            _ => false,
        }
    }

    #[verifier::when_used_as_spec(spec_has_metadata)]
    pub fn has_metadata(self) -> (r: bool)
        ensures
            r == self.spec_has_metadata(),
    {
        !matches!(self, Strategy::RawData)
    }

    #[verifier::when_used_as_spec(spec_data_count)]
    pub fn data_count(self) -> (r: u8)
        ensures
            r == self.spec_data_count(),
    {
        match self {
            Strategy::Struct => 0,
            Strategy::RawStruct => 0,
            Strategy::RawStructSlice => 0,
            Strategy::RawMeta => 0,
            Strategy::RawMetaSlice => 0,
            Strategy::CStr => 2,
            Strategy::Counted => 2,
            Strategy::Slice => 2,
            _ => 1,
        }
    }

    #[verifier::when_used_as_spec(spec_accepts_tag)]
    pub fn accepts_tag(self) -> (r: bool)
        ensures
            r == self.spec_accepts_tag(),
    {
        !matches!(self, Strategy::RawData)
    }

    #[verifier::when_used_as_spec(spec_accepts_format)]
    pub fn accepts_format(self) -> (r: bool)
        ensures
            r == self.spec_accepts_format(),
    {
        match self {
            Strategy::Struct => false,
            Strategy::RawStruct => false,
            Strategy::RawStructSlice => false,
            Strategy::RawData => false,
            _ => true,
        }
    }

    #[verifier::when_used_as_spec(spec_wants_group)]
    pub fn wants_group(self) -> (r: bool)
        ensures
            r == self.spec_wants_group(),
    {
        matches!(self, Strategy::Struct)
    }

    #[verifier::when_used_as_spec(spec_takes_type_code)]
    pub fn takes_type_code(self) -> (r: bool)
        ensures
            r == self.spec_takes_type_code(),
    {
        match self {
            Strategy::RawField => true,
            Strategy::RawFieldSlice => true,
            Strategy::RawMeta => true,
            Strategy::RawMetaSlice => true,
            _ => false,
        }
    }

    #[verifier::when_used_as_spec(spec_takes_member_count)]
    pub fn takes_member_count(self) -> (r: bool)
        ensures
            r == self.spec_takes_member_count(),
    {
        matches!(self, Strategy::RawStruct | Strategy::RawStructSlice)
    }
}

/// A wire in-type: either a concrete code byte, or one of the three
/// pointer-width aliases that only the emitting platform can resolve.
#[derive(Clone, Copy, PartialEq, Eq, Structural, Debug)]
pub enum TypeTok {
    /// A concrete in-type code.
    Code(u8),
    /// Pointer-width signed integer; `I64` or `I32` on the platform.
    ISize,
    /// Pointer-width unsigned integer; `U64` or `U32` on the platform.
    USize,
    /// Pointer-width hexadecimal integer; `Hex64` or `Hex32` on the platform.
    HexSize,
}

/// The host-language type of the value a field binds at the call site.
#[derive(Clone, Copy, PartialEq, Eq, Structural, Debug)]
pub enum ValueType {
    U8,
    I8,
    U16,
    I16,
    U32,
    I32,
    U64,
    I64,
    USize,
    ISize,
    Bool,
    F32,
    F64,
    Guid,
    /// The field takes no value of its own (group and raw-metadata kinds).
    EmptySlice,
}

/// One catalog entry: everything the validator and the layout compiler need
/// to know about a field kind.
pub struct FieldDef {
    /// The option name; the catalog's sort key.
    pub name: String,
    /// The host type of the bound value.
    pub vtype: ValueType,
    /// The default wire in-type.
    pub intype: TypeTok,
    /// The default wire out-type code; 0 means none is emitted.
    pub outtype: u8,
    /// The marshalling strategy.
    pub strategy: Strategy,
    /// For fixed-arity values (an address, a calendar time), the element
    /// count of one value; 0 for single values and variable-length fields.
    pub arity: u8,
}

/// Adjacent entries are in strictly increasing name order.
pub open spec fn adj_sorted(s: Seq<FieldDef>) -> bool {
    forall|i: int| 0 < i < s.len() ==> #[trigger] name_lt(s[i - 1].name@, s[i].name@)
}

/// All pairs of entries are in strictly increasing name order.
pub open spec fn defs_sorted(s: Seq<FieldDef>) -> bool {
    forall|i: int, j: int|
        0 <= i < j < s.len() ==> name_lt(#[trigger] s[i].name@, #[trigger] s[j].name@)
}

/// Adjacent ordering of the whole table gives pairwise ordering.
pub proof fn lemma_adj_sorted_implies_defs_sorted(s: Seq<FieldDef>)
    requires
        adj_sorted(s),
    ensures
        defs_sorted(s),
{
    assert forall|i: int, j: int| 0 <= i < j < s.len() implies name_lt(s[i].name@, s[j].name@) by {
        lemma_defs_lt_upto(s, i, j);
    }
}

proof fn lemma_defs_lt_upto(s: Seq<FieldDef>, i: int, j: int)
    requires
        adj_sorted(s),
        0 <= i < j < s.len(),
    ensures
        name_lt(s[i].name@, s[j].name@),
    decreases j - i,
{
    assert(name_lt(s[j - 1].name@, s[j].name@));
    if j > i + 1 {
        lemma_defs_lt_upto(s, i, j - 1);
        lemma_name_lt_trans(s[i].name@, s[j - 1].name@, s[j].name@);
    }
}

/// The option catalog.
pub struct Catalog {
    /// The entries, sorted by name.
    pub defs: Vec<FieldDef>,
}

/// Whether one entry holds exactly the given definition.
pub open spec fn def_is(
    d: FieldDef,
    name: Seq<char>,
    vtype: ValueType,
    intype: TypeTok,
    outtype: u8,
    strategy: Strategy,
    arity: u8,
) -> bool {
    &&& d.name@ == name
    &&& d.vtype == vtype
    &&& d.intype == intype
    &&& d.outtype == outtype
    &&& d.strategy == strategy
    &&& d.arity == arity
}

/// The table entries 0 to 13 hold their fixed definitions.
pub open spec fn part_a_ok(s: Seq<FieldDef>) -> bool {
    &&& s.len() >= 14
    &&& def_is(s[0], "binary"@, ValueType::U8, TypeTok::Code(14), 0, Strategy::Counted, 0)
    &&& def_is(s[1], "binaryc"@, ValueType::U8, TypeTok::Code(25), 0, Strategy::Counted, 0)
    &&& def_is(s[2], "bool32"@, ValueType::I32, TypeTok::Code(13), 0, Strategy::Scalar, 0)
    &&& def_is(s[3], "bool32_slice"@, ValueType::I32, TypeTok::Code(13), 0, Strategy::Slice, 0)
    &&& def_is(s[4], "bool8"@, ValueType::Bool, TypeTok::Code(4), 3, Strategy::Scalar, 0)
    &&& def_is(s[5], "bool8_slice"@, ValueType::Bool, TypeTok::Code(4), 3, Strategy::Slice, 0)
    &&& def_is(s[6], "char16"@, ValueType::U16, TypeTok::Code(6), 2, Strategy::Scalar, 0)
    &&& def_is(s[7], "char16_slice"@, ValueType::U16, TypeTok::Code(6), 2, Strategy::Slice, 0)
    &&& def_is(s[8], "char8_cp1252"@, ValueType::U8, TypeTok::Code(4), 2, Strategy::Scalar, 0)
    &&& def_is(s[9], "char8_cp1252_slice"@, ValueType::U8, TypeTok::Code(4), 2, Strategy::Slice, 0)
    &&& def_is(s[10], "codepointer"@, ValueType::USize, TypeTok::HexSize, 37, Strategy::Scalar, 0)
    &&& def_is(s[11], "codepointer_slice"@, ValueType::USize, TypeTok::HexSize, 37, Strategy::Slice, 0)
    &&& def_is(s[12], "cstr16"@, ValueType::U16, TypeTok::Code(1), 0, Strategy::CStr, 0)
    &&& def_is(s[13], "cstr16_json"@, ValueType::U16, TypeTok::Code(1), 12, Strategy::CStr, 0)
}

/// The table entries 14 to 27 hold their fixed definitions.
pub open spec fn part_b_ok(s: Seq<FieldDef>) -> bool {
    &&& s.len() >= 28
    &&& def_is(s[14], "cstr16_xml"@, ValueType::U16, TypeTok::Code(1), 11, Strategy::CStr, 0)
    &&& def_is(s[15], "cstr8"@, ValueType::U8, TypeTok::Code(2), 35, Strategy::CStr, 0)
    &&& def_is(s[16], "cstr8_cp1252"@, ValueType::U8, TypeTok::Code(2), 0, Strategy::CStr, 0)
    &&& def_is(s[17], "cstr8_json"@, ValueType::U8, TypeTok::Code(2), 12, Strategy::CStr, 0)
    &&& def_is(s[18], "cstr8_xml"@, ValueType::U8, TypeTok::Code(2), 11, Strategy::CStr, 0)
    &&& def_is(s[19], "errno"@, ValueType::I32, TypeTok::Code(7), 0, Strategy::Scalar, 0)
    &&& def_is(s[20], "errno_slice"@, ValueType::I32, TypeTok::Code(7), 0, Strategy::Slice, 0)
    &&& def_is(s[21], "f32"@, ValueType::F32, TypeTok::Code(11), 0, Strategy::Scalar, 0)
    &&& def_is(s[22], "f32_slice"@, ValueType::F32, TypeTok::Code(11), 0, Strategy::Slice, 0)
    &&& def_is(s[23], "f64"@, ValueType::F64, TypeTok::Code(12), 0, Strategy::Scalar, 0)
    &&& def_is(s[24], "f64_slice"@, ValueType::F64, TypeTok::Code(12), 0, Strategy::Slice, 0)
    &&& def_is(s[25], "guid"@, ValueType::Guid, TypeTok::Code(15), 0, Strategy::Scalar, 0)
    &&& def_is(s[26], "guid_slice"@, ValueType::Guid, TypeTok::Code(15), 0, Strategy::Slice, 0)
    &&& def_is(s[27], "hresult"@, ValueType::I32, TypeTok::Code(7), 15, Strategy::Scalar, 0)
}

/// The table entries 28 to 41 hold their fixed definitions.
pub open spec fn part_c_ok(s: Seq<FieldDef>) -> bool {
    &&& s.len() >= 42
    &&& def_is(s[28], "hresult_slice"@, ValueType::I32, TypeTok::Code(7), 15, Strategy::Slice, 0)
    &&& def_is(s[29], "i16"@, ValueType::I16, TypeTok::Code(5), 0, Strategy::Scalar, 0)
    &&& def_is(s[30], "i16_hex"@, ValueType::I16, TypeTok::Code(6), 4, Strategy::Scalar, 0)
    &&& def_is(s[31], "i16_hex_slice"@, ValueType::I16, TypeTok::Code(6), 4, Strategy::Slice, 0)
    &&& def_is(s[32], "i16_slice"@, ValueType::I16, TypeTok::Code(5), 0, Strategy::Slice, 0)
    &&& def_is(s[33], "i32"@, ValueType::I32, TypeTok::Code(7), 0, Strategy::Scalar, 0)
    &&& def_is(s[34], "i32_hex"@, ValueType::I32, TypeTok::Code(20), 0, Strategy::Scalar, 0)
    &&& def_is(s[35], "i32_hex_slice"@, ValueType::I32, TypeTok::Code(20), 0, Strategy::Slice, 0)
    &&& def_is(s[36], "i32_slice"@, ValueType::I32, TypeTok::Code(7), 0, Strategy::Slice, 0)
    &&& def_is(s[37], "i64"@, ValueType::I64, TypeTok::Code(9), 0, Strategy::Scalar, 0)
    &&& def_is(s[38], "i64_hex"@, ValueType::I64, TypeTok::Code(21), 0, Strategy::Scalar, 0)
    &&& def_is(s[39], "i64_hex_slice"@, ValueType::I64, TypeTok::Code(21), 0, Strategy::Slice, 0)
    &&& def_is(s[40], "i64_slice"@, ValueType::I64, TypeTok::Code(9), 0, Strategy::Slice, 0)
    &&& def_is(s[41], "i8"@, ValueType::I8, TypeTok::Code(3), 0, Strategy::Scalar, 0)
}

/// The table entries 42 to 55 hold their fixed definitions.
pub open spec fn part_d_ok(s: Seq<FieldDef>) -> bool {
    &&& s.len() >= 56
    &&& def_is(s[42], "i8_hex"@, ValueType::I8, TypeTok::Code(4), 4, Strategy::Scalar, 0)
    &&& def_is(s[43], "i8_hex_slice"@, ValueType::I8, TypeTok::Code(4), 4, Strategy::Slice, 0)
    &&& def_is(s[44], "i8_slice"@, ValueType::I8, TypeTok::Code(3), 0, Strategy::Slice, 0)
    &&& def_is(s[45], "ipv4"@, ValueType::U8, TypeTok::Code(8), 8, Strategy::Scalar, 4)
    &&& def_is(s[46], "ipv4_slice"@, ValueType::U8, TypeTok::Code(8), 8, Strategy::Slice, 4)
    &&& def_is(s[47], "ipv6"@, ValueType::U8, TypeTok::Code(14), 9, Strategy::Counted, 16)
    &&& def_is(s[48], "ipv6c"@, ValueType::U8, TypeTok::Code(25), 9, Strategy::Counted, 16)
    &&& def_is(s[49], "isize"@, ValueType::ISize, TypeTok::ISize, 0, Strategy::Scalar, 0)
    &&& def_is(s[50], "isize_hex"@, ValueType::ISize, TypeTok::HexSize, 0, Strategy::Scalar, 0)
    &&& def_is(s[51], "isize_hex_slice"@, ValueType::ISize, TypeTok::HexSize, 0, Strategy::Slice, 0)
    &&& def_is(s[52], "isize_slice"@, ValueType::ISize, TypeTok::ISize, 0, Strategy::Slice, 0)
    &&& def_is(s[53], "pid"@, ValueType::U32, TypeTok::Code(8), 5, Strategy::Scalar, 0)
    &&& def_is(s[54], "pid_slice"@, ValueType::U32, TypeTok::Code(8), 5, Strategy::Slice, 0)
    &&& def_is(s[55], "pointer"@, ValueType::USize, TypeTok::HexSize, 0, Strategy::Scalar, 0)
}

/// The table entries 56 to 69 hold their fixed definitions.
pub open spec fn part_e_ok(s: Seq<FieldDef>) -> bool {
    &&& s.len() >= 70
    &&& def_is(s[56], "pointer_slice"@, ValueType::USize, TypeTok::HexSize, 0, Strategy::Slice, 0)
    &&& def_is(s[57], "port"@, ValueType::U16, TypeTok::Code(6), 7, Strategy::Scalar, 0)
    &&& def_is(s[58], "port_slice"@, ValueType::U16, TypeTok::Code(6), 7, Strategy::Slice, 0)
    &&& def_is(s[59], "raw_data"@, ValueType::U8, TypeTok::Code(0), 0, Strategy::RawData, 0)
    &&& def_is(s[60], "raw_field"@, ValueType::U8, TypeTok::Code(0), 0, Strategy::RawField, 0)
    &&& def_is(s[61], "raw_field_slice"@, ValueType::U8, TypeTok::Code(0), 0, Strategy::RawFieldSlice, 0)
    &&& def_is(s[62], "raw_meta"@, ValueType::EmptySlice, TypeTok::Code(0), 0, Strategy::RawMeta, 0)
    &&& def_is(s[63], "raw_meta_slice"@, ValueType::EmptySlice, TypeTok::Code(0), 0, Strategy::RawMetaSlice, 0)
    &&& def_is(s[64], "raw_struct"@, ValueType::EmptySlice, TypeTok::Code(24), 0, Strategy::RawStruct, 0)
    &&& def_is(s[65], "raw_struct_slice"@, ValueType::EmptySlice, TypeTok::Code(24), 0, Strategy::RawStructSlice, 0)
    &&& def_is(s[66], "socketaddress"@, ValueType::U8, TypeTok::Code(14), 10, Strategy::Counted, 0)
    &&& def_is(s[67], "socketaddressc"@, ValueType::U8, TypeTok::Code(25), 10, Strategy::Counted, 0)
    &&& def_is(s[68], "str16"@, ValueType::U16, TypeTok::Code(22), 0, Strategy::Counted, 0)
    &&& def_is(s[69], "str16_json"@, ValueType::U16, TypeTok::Code(22), 12, Strategy::Counted, 0)
}

/// The table entries 70 to 83 hold their fixed definitions.
pub open spec fn part_f_ok(s: Seq<FieldDef>) -> bool {
    &&& s.len() >= 84
    &&& def_is(s[70], "str16_xml"@, ValueType::U16, TypeTok::Code(22), 11, Strategy::Counted, 0)
    &&& def_is(s[71], "str8"@, ValueType::U8, TypeTok::Code(23), 35, Strategy::Counted, 0)
    &&& def_is(s[72], "str8_cp1252"@, ValueType::U8, TypeTok::Code(23), 0, Strategy::Counted, 0)
    &&& def_is(s[73], "str8_json"@, ValueType::U8, TypeTok::Code(23), 12, Strategy::Counted, 0)
    &&& def_is(s[74], "str8_xml"@, ValueType::U8, TypeTok::Code(23), 11, Strategy::Counted, 0)
    &&& def_is(s[75], "struct"@, ValueType::EmptySlice, TypeTok::Code(24), 0, Strategy::Struct, 0)
    &&& def_is(s[76], "systemtime"@, ValueType::I64, TypeTok::Code(17), 0, Strategy::SystemTime, 0)
    &&& def_is(s[77], "tid"@, ValueType::U32, TypeTok::Code(8), 6, Strategy::Scalar, 0)
    &&& def_is(s[78], "tid_slice"@, ValueType::U32, TypeTok::Code(8), 6, Strategy::Slice, 0)
    &&& def_is(s[79], "time32"@, ValueType::I64, TypeTok::Code(17), 0, Strategy::Time32, 0)
    &&& def_is(s[80], "time64"@, ValueType::I64, TypeTok::Code(17), 0, Strategy::Time64, 0)
    &&& def_is(s[81], "u16"@, ValueType::U16, TypeTok::Code(6), 0, Strategy::Scalar, 0)
    &&& def_is(s[82], "u16_hex"@, ValueType::U16, TypeTok::Code(6), 4, Strategy::Scalar, 0)
    &&& def_is(s[83], "u16_hex_slice"@, ValueType::U16, TypeTok::Code(6), 4, Strategy::Slice, 0)
}

/// The table entries 84 to 97 hold their fixed definitions.
pub open spec fn part_g_ok(s: Seq<FieldDef>) -> bool {
    &&& s.len() >= 98
    &&& def_is(s[84], "u16_slice"@, ValueType::U16, TypeTok::Code(6), 0, Strategy::Slice, 0)
    &&& def_is(s[85], "u32"@, ValueType::U32, TypeTok::Code(8), 0, Strategy::Scalar, 0)
    &&& def_is(s[86], "u32_hex"@, ValueType::U32, TypeTok::Code(20), 0, Strategy::Scalar, 0)
    &&& def_is(s[87], "u32_hex_slice"@, ValueType::U32, TypeTok::Code(20), 0, Strategy::Slice, 0)
    &&& def_is(s[88], "u32_slice"@, ValueType::U32, TypeTok::Code(8), 0, Strategy::Slice, 0)
    &&& def_is(s[89], "u64"@, ValueType::U64, TypeTok::Code(10), 0, Strategy::Scalar, 0)
    &&& def_is(s[90], "u64_hex"@, ValueType::U64, TypeTok::Code(21), 0, Strategy::Scalar, 0)
    &&& def_is(s[91], "u64_hex_slice"@, ValueType::U64, TypeTok::Code(21), 0, Strategy::Slice, 0)
    &&& def_is(s[92], "u64_slice"@, ValueType::U64, TypeTok::Code(10), 0, Strategy::Slice, 0)
    &&& def_is(s[93], "u8"@, ValueType::U8, TypeTok::Code(4), 0, Strategy::Scalar, 0)
    &&& def_is(s[94], "u8_hex"@, ValueType::U8, TypeTok::Code(4), 4, Strategy::Scalar, 0)
    &&& def_is(s[95], "u8_hex_slice"@, ValueType::U8, TypeTok::Code(4), 4, Strategy::Slice, 0)
    &&& def_is(s[96], "u8_slice"@, ValueType::U8, TypeTok::Code(4), 0, Strategy::Slice, 0)
    &&& def_is(s[97], "usize"@, ValueType::USize, TypeTok::USize, 0, Strategy::Scalar, 0)
}

/// The table entries 98 to 111 hold their fixed definitions.
pub open spec fn part_h_ok(s: Seq<FieldDef>) -> bool {
    &&& s.len() >= 112
    &&& def_is(s[98], "usize_hex"@, ValueType::USize, TypeTok::HexSize, 0, Strategy::Scalar, 0)
    &&& def_is(s[99], "usize_hex_slice"@, ValueType::USize, TypeTok::HexSize, 0, Strategy::Slice, 0)
    &&& def_is(s[100], "usize_slice"@, ValueType::USize, TypeTok::USize, 0, Strategy::Slice, 0)
    &&& def_is(s[101], "win_error"@, ValueType::U32, TypeTok::Code(8), 13, Strategy::Scalar, 0)
    &&& def_is(s[102], "win_error_slice"@, ValueType::U32, TypeTok::Code(8), 13, Strategy::Slice, 0)
    &&& def_is(s[103], "win_filetime"@, ValueType::I64, TypeTok::Code(17), 0, Strategy::Scalar, 0)
    &&& def_is(s[104], "win_filetime_slice"@, ValueType::I64, TypeTok::Code(17), 0, Strategy::Slice, 0)
    &&& def_is(s[105], "win_ntstatus"@, ValueType::I32, TypeTok::Code(20), 14, Strategy::Scalar, 0)
    &&& def_is(s[106], "win_ntstatus_slice"@, ValueType::I32, TypeTok::Code(20), 14, Strategy::Slice, 0)
    &&& def_is(s[107], "win_sid"@, ValueType::U8, TypeTok::Code(19), 0, Strategy::Sid, 0)
    &&& def_is(s[108], "win_systemtime"@, ValueType::U16, TypeTok::Code(18), 0, Strategy::Scalar, 8)
    &&& def_is(s[109], "win_systemtime_slice"@, ValueType::U16, TypeTok::Code(18), 0, Strategy::Slice, 8)
    &&& def_is(s[110], "win_systemtime_utc"@, ValueType::U16, TypeTok::Code(18), 38, Strategy::Scalar, 8)
    &&& def_is(s[111], "win_systemtime_utc_slice"@, ValueType::U16, TypeTok::Code(18), 38, Strategy::Slice, 8)
}

/// The whole catalog holds exactly its 112 fixed definitions.
pub open spec fn catalog_ok(s: Seq<FieldDef>) -> bool {
    &&& s.len() == 112
    &&& part_a_ok(s)
    &&& part_b_ok(s)
    &&& part_c_ok(s)
    &&& part_d_ok(s)
    &&& part_e_ok(s)
    &&& part_f_ok(s)
    &&& part_g_ok(s)
    &&& part_h_ok(s)
}

#[verifier::rlimit(60)]
fn fill_a(defs: &mut Vec<FieldDef>)
    requires
        old(defs)@.len() == 0,
    ensures
        final(defs)@.len() == 14,
        adj_sorted(final(defs)@),
        final(defs)@[13].name@ == "cstr16_json"@,
        part_a_ok(final(defs)@),
{
    defs.push(FieldDef { name: "binary".to_owned(), vtype: ValueType::U8, intype: TypeTok::Code(14), outtype: 0, strategy: Strategy::Counted, arity: 0 });
    defs.push(FieldDef { name: "binaryc".to_owned(), vtype: ValueType::U8, intype: TypeTok::Code(25), outtype: 0, strategy: Strategy::Counted, arity: 0 });
    defs.push(FieldDef { name: "bool32".to_owned(), vtype: ValueType::I32, intype: TypeTok::Code(13), outtype: 0, strategy: Strategy::Scalar, arity: 0 });
    defs.push(FieldDef { name: "bool32_slice".to_owned(), vtype: ValueType::I32, intype: TypeTok::Code(13), outtype: 0, strategy: Strategy::Slice, arity: 0 });
    defs.push(FieldDef { name: "bool8".to_owned(), vtype: ValueType::Bool, intype: TypeTok::Code(4), outtype: 3, strategy: Strategy::Scalar, arity: 0 });
    defs.push(FieldDef { name: "bool8_slice".to_owned(), vtype: ValueType::Bool, intype: TypeTok::Code(4), outtype: 3, strategy: Strategy::Slice, arity: 0 });
    defs.push(FieldDef { name: "char16".to_owned(), vtype: ValueType::U16, intype: TypeTok::Code(6), outtype: 2, strategy: Strategy::Scalar, arity: 0 });
    defs.push(FieldDef { name: "char16_slice".to_owned(), vtype: ValueType::U16, intype: TypeTok::Code(6), outtype: 2, strategy: Strategy::Slice, arity: 0 });
    defs.push(FieldDef { name: "char8_cp1252".to_owned(), vtype: ValueType::U8, intype: TypeTok::Code(4), outtype: 2, strategy: Strategy::Scalar, arity: 0 });
    defs.push(FieldDef { name: "char8_cp1252_slice".to_owned(), vtype: ValueType::U8, intype: TypeTok::Code(4), outtype: 2, strategy: Strategy::Slice, arity: 0 });
    defs.push(FieldDef { name: "codepointer".to_owned(), vtype: ValueType::USize, intype: TypeTok::HexSize, outtype: 37, strategy: Strategy::Scalar, arity: 0 });
    defs.push(FieldDef { name: "codepointer_slice".to_owned(), vtype: ValueType::USize, intype: TypeTok::HexSize, outtype: 37, strategy: Strategy::Slice, arity: 0 });
    defs.push(FieldDef { name: "cstr16".to_owned(), vtype: ValueType::U16, intype: TypeTok::Code(1), outtype: 0, strategy: Strategy::CStr, arity: 0 });
    defs.push(FieldDef { name: "cstr16_json".to_owned(), vtype: ValueType::U16, intype: TypeTok::Code(1), outtype: 12, strategy: Strategy::CStr, arity: 0 });
    proof {
        reveal_strlit("binary");
        reveal_strlit("binaryc");
        reveal_strlit("bool32");
        reveal_strlit("bool32_slice");
        reveal_strlit("bool8");
        reveal_strlit("bool8_slice");
        reveal_strlit("char16");
        reveal_strlit("char16_slice");
        reveal_strlit("char8_cp1252");
        reveal_strlit("char8_cp1252_slice");
        reveal_strlit("codepointer");
        reveal_strlit("codepointer_slice");
        reveal_strlit("cstr16");
        reveal_strlit("cstr16_json");
        reveal_with_fuel(name_lt, 26);
        assert(name_lt(defs@[0].name@, defs@[1].name@));
        assert(name_lt(defs@[1].name@, defs@[2].name@));
        assert(name_lt(defs@[2].name@, defs@[3].name@));
        assert(name_lt(defs@[3].name@, defs@[4].name@));
        assert(name_lt(defs@[4].name@, defs@[5].name@));
        assert(name_lt(defs@[5].name@, defs@[6].name@));
        assert(name_lt(defs@[6].name@, defs@[7].name@));
        assert(name_lt(defs@[7].name@, defs@[8].name@));
        assert(name_lt(defs@[8].name@, defs@[9].name@));
        assert(name_lt(defs@[9].name@, defs@[10].name@));
        assert(name_lt(defs@[10].name@, defs@[11].name@));
        assert(name_lt(defs@[11].name@, defs@[12].name@));
        assert(name_lt(defs@[12].name@, defs@[13].name@));
        assert forall|i: int| 0 < i < defs@.len() implies #[trigger] name_lt(
            defs@[i - 1].name@,
            defs@[i].name@,
        ) by {
        }
    }
}

#[verifier::rlimit(60)]
fn fill_b(defs: &mut Vec<FieldDef>)
    requires
        old(defs)@.len() == 14,
        adj_sorted(old(defs)@),
        old(defs)@[13].name@ == "cstr16_json"@,
        part_a_ok(old(defs)@),
    ensures
        final(defs)@.len() == 28,
        adj_sorted(final(defs)@),
        final(defs)@[27].name@ == "hresult"@,
        part_a_ok(final(defs)@),
        part_b_ok(final(defs)@),
{
    defs.push(FieldDef { name: "cstr16_xml".to_owned(), vtype: ValueType::U16, intype: TypeTok::Code(1), outtype: 11, strategy: Strategy::CStr, arity: 0 });
    defs.push(FieldDef { name: "cstr8".to_owned(), vtype: ValueType::U8, intype: TypeTok::Code(2), outtype: 35, strategy: Strategy::CStr, arity: 0 });
    defs.push(FieldDef { name: "cstr8_cp1252".to_owned(), vtype: ValueType::U8, intype: TypeTok::Code(2), outtype: 0, strategy: Strategy::CStr, arity: 0 });
    defs.push(FieldDef { name: "cstr8_json".to_owned(), vtype: ValueType::U8, intype: TypeTok::Code(2), outtype: 12, strategy: Strategy::CStr, arity: 0 });
    defs.push(FieldDef { name: "cstr8_xml".to_owned(), vtype: ValueType::U8, intype: TypeTok::Code(2), outtype: 11, strategy: Strategy::CStr, arity: 0 });
    defs.push(FieldDef { name: "errno".to_owned(), vtype: ValueType::I32, intype: TypeTok::Code(7), outtype: 0, strategy: Strategy::Scalar, arity: 0 });
    defs.push(FieldDef { name: "errno_slice".to_owned(), vtype: ValueType::I32, intype: TypeTok::Code(7), outtype: 0, strategy: Strategy::Slice, arity: 0 });
    defs.push(FieldDef { name: "f32".to_owned(), vtype: ValueType::F32, intype: TypeTok::Code(11), outtype: 0, strategy: Strategy::Scalar, arity: 0 });
    defs.push(FieldDef { name: "f32_slice".to_owned(), vtype: ValueType::F32, intype: TypeTok::Code(11), outtype: 0, strategy: Strategy::Slice, arity: 0 });
    defs.push(FieldDef { name: "f64".to_owned(), vtype: ValueType::F64, intype: TypeTok::Code(12), outtype: 0, strategy: Strategy::Scalar, arity: 0 });
    defs.push(FieldDef { name: "f64_slice".to_owned(), vtype: ValueType::F64, intype: TypeTok::Code(12), outtype: 0, strategy: Strategy::Slice, arity: 0 });
    defs.push(FieldDef { name: "guid".to_owned(), vtype: ValueType::Guid, intype: TypeTok::Code(15), outtype: 0, strategy: Strategy::Scalar, arity: 0 });
    defs.push(FieldDef { name: "guid_slice".to_owned(), vtype: ValueType::Guid, intype: TypeTok::Code(15), outtype: 0, strategy: Strategy::Slice, arity: 0 });
    defs.push(FieldDef { name: "hresult".to_owned(), vtype: ValueType::I32, intype: TypeTok::Code(7), outtype: 15, strategy: Strategy::Scalar, arity: 0 });
    proof {
        reveal_strlit("cstr16_json");
        reveal_strlit("cstr16_xml");
        reveal_strlit("cstr8");
        reveal_strlit("cstr8_cp1252");
        reveal_strlit("cstr8_json");
        reveal_strlit("cstr8_xml");
        reveal_strlit("errno");
        reveal_strlit("errno_slice");
        reveal_strlit("f32");
        reveal_strlit("f32_slice");
        reveal_strlit("f64");
        reveal_strlit("f64_slice");
        reveal_strlit("guid");
        reveal_strlit("guid_slice");
        reveal_strlit("hresult");
        reveal_with_fuel(name_lt, 26);
        assert(name_lt(defs@[13].name@, defs@[14].name@));
        assert(name_lt(defs@[14].name@, defs@[15].name@));
        assert(name_lt(defs@[15].name@, defs@[16].name@));
        assert(name_lt(defs@[16].name@, defs@[17].name@));
        assert(name_lt(defs@[17].name@, defs@[18].name@));
        assert(name_lt(defs@[18].name@, defs@[19].name@));
        assert(name_lt(defs@[19].name@, defs@[20].name@));
        assert(name_lt(defs@[20].name@, defs@[21].name@));
        assert(name_lt(defs@[21].name@, defs@[22].name@));
        assert(name_lt(defs@[22].name@, defs@[23].name@));
        assert(name_lt(defs@[23].name@, defs@[24].name@));
        assert(name_lt(defs@[24].name@, defs@[25].name@));
        assert(name_lt(defs@[25].name@, defs@[26].name@));
        assert(name_lt(defs@[26].name@, defs@[27].name@));
        assert forall|i: int| 0 < i < defs@.len() implies #[trigger] name_lt(
            defs@[i - 1].name@,
            defs@[i].name@,
        ) by {
            if i < 14 {
                assert(name_lt(old(defs)@[i - 1].name@, old(defs)@[i].name@));
            }
        }
    }
}

#[verifier::rlimit(60)]
fn fill_c(defs: &mut Vec<FieldDef>)
    requires
        old(defs)@.len() == 28,
        adj_sorted(old(defs)@),
        old(defs)@[27].name@ == "hresult"@,
        part_a_ok(old(defs)@),
        part_b_ok(old(defs)@),
    ensures
        final(defs)@.len() == 42,
        adj_sorted(final(defs)@),
        final(defs)@[41].name@ == "i8"@,
        part_a_ok(final(defs)@),
        part_b_ok(final(defs)@),
        part_c_ok(final(defs)@),
{
    defs.push(FieldDef { name: "hresult_slice".to_owned(), vtype: ValueType::I32, intype: TypeTok::Code(7), outtype: 15, strategy: Strategy::Slice, arity: 0 });
    defs.push(FieldDef { name: "i16".to_owned(), vtype: ValueType::I16, intype: TypeTok::Code(5), outtype: 0, strategy: Strategy::Scalar, arity: 0 });
    defs.push(FieldDef { name: "i16_hex".to_owned(), vtype: ValueType::I16, intype: TypeTok::Code(6), outtype: 4, strategy: Strategy::Scalar, arity: 0 });
    defs.push(FieldDef { name: "i16_hex_slice".to_owned(), vtype: ValueType::I16, intype: TypeTok::Code(6), outtype: 4, strategy: Strategy::Slice, arity: 0 });
    defs.push(FieldDef { name: "i16_slice".to_owned(), vtype: ValueType::I16, intype: TypeTok::Code(5), outtype: 0, strategy: Strategy::Slice, arity: 0 });
    defs.push(FieldDef { name: "i32".to_owned(), vtype: ValueType::I32, intype: TypeTok::Code(7), outtype: 0, strategy: Strategy::Scalar, arity: 0 });
    defs.push(FieldDef { name: "i32_hex".to_owned(), vtype: ValueType::I32, intype: TypeTok::Code(20), outtype: 0, strategy: Strategy::Scalar, arity: 0 });
    defs.push(FieldDef { name: "i32_hex_slice".to_owned(), vtype: ValueType::I32, intype: TypeTok::Code(20), outtype: 0, strategy: Strategy::Slice, arity: 0 });
    defs.push(FieldDef { name: "i32_slice".to_owned(), vtype: ValueType::I32, intype: TypeTok::Code(7), outtype: 0, strategy: Strategy::Slice, arity: 0 });
    defs.push(FieldDef { name: "i64".to_owned(), vtype: ValueType::I64, intype: TypeTok::Code(9), outtype: 0, strategy: Strategy::Scalar, arity: 0 });
    defs.push(FieldDef { name: "i64_hex".to_owned(), vtype: ValueType::I64, intype: TypeTok::Code(21), outtype: 0, strategy: Strategy::Scalar, arity: 0 });
    defs.push(FieldDef { name: "i64_hex_slice".to_owned(), vtype: ValueType::I64, intype: TypeTok::Code(21), outtype: 0, strategy: Strategy::Slice, arity: 0 });
    defs.push(FieldDef { name: "i64_slice".to_owned(), vtype: ValueType::I64, intype: TypeTok::Code(9), outtype: 0, strategy: Strategy::Slice, arity: 0 });
    defs.push(FieldDef { name: "i8".to_owned(), vtype: ValueType::I8, intype: TypeTok::Code(3), outtype: 0, strategy: Strategy::Scalar, arity: 0 });
    proof {
        reveal_strlit("hresult");
        reveal_strlit("hresult_slice");
        reveal_strlit("i16");
        reveal_strlit("i16_hex");
        reveal_strlit("i16_hex_slice");
        reveal_strlit("i16_slice");
        reveal_strlit("i32");
        reveal_strlit("i32_hex");
        reveal_strlit("i32_hex_slice");
        reveal_strlit("i32_slice");
        reveal_strlit("i64");
        reveal_strlit("i64_hex");
        reveal_strlit("i64_hex_slice");
        reveal_strlit("i64_slice");
        reveal_strlit("i8");
        reveal_with_fuel(name_lt, 26);
        assert(name_lt(defs@[27].name@, defs@[28].name@));
        assert(name_lt(defs@[28].name@, defs@[29].name@));
        assert(name_lt(defs@[29].name@, defs@[30].name@));
        assert(name_lt(defs@[30].name@, defs@[31].name@));
        assert(name_lt(defs@[31].name@, defs@[32].name@));
        assert(name_lt(defs@[32].name@, defs@[33].name@));
        assert(name_lt(defs@[33].name@, defs@[34].name@));
        assert(name_lt(defs@[34].name@, defs@[35].name@));
        assert(name_lt(defs@[35].name@, defs@[36].name@));
        assert(name_lt(defs@[36].name@, defs@[37].name@));
        assert(name_lt(defs@[37].name@, defs@[38].name@));
        assert(name_lt(defs@[38].name@, defs@[39].name@));
        assert(name_lt(defs@[39].name@, defs@[40].name@));
        assert(name_lt(defs@[40].name@, defs@[41].name@));
        assert forall|i: int| 0 < i < defs@.len() implies #[trigger] name_lt(
            defs@[i - 1].name@,
            defs@[i].name@,
        ) by {
            if i < 28 {
                assert(name_lt(old(defs)@[i - 1].name@, old(defs)@[i].name@));
            }
        }
    }
}

#[verifier::rlimit(60)]
fn fill_d(defs: &mut Vec<FieldDef>)
    requires
        old(defs)@.len() == 42,
        adj_sorted(old(defs)@),
        old(defs)@[41].name@ == "i8"@,
        part_a_ok(old(defs)@),
        part_b_ok(old(defs)@),
        part_c_ok(old(defs)@),
    ensures
        final(defs)@.len() == 56,
        adj_sorted(final(defs)@),
        final(defs)@[55].name@ == "pointer"@,
        part_a_ok(final(defs)@),
        part_b_ok(final(defs)@),
        part_c_ok(final(defs)@),
        part_d_ok(final(defs)@),
{
    defs.push(FieldDef { name: "i8_hex".to_owned(), vtype: ValueType::I8, intype: TypeTok::Code(4), outtype: 4, strategy: Strategy::Scalar, arity: 0 });
    defs.push(FieldDef { name: "i8_hex_slice".to_owned(), vtype: ValueType::I8, intype: TypeTok::Code(4), outtype: 4, strategy: Strategy::Slice, arity: 0 });
    defs.push(FieldDef { name: "i8_slice".to_owned(), vtype: ValueType::I8, intype: TypeTok::Code(3), outtype: 0, strategy: Strategy::Slice, arity: 0 });
    defs.push(FieldDef { name: "ipv4".to_owned(), vtype: ValueType::U8, intype: TypeTok::Code(8), outtype: 8, strategy: Strategy::Scalar, arity: 4 });
    defs.push(FieldDef { name: "ipv4_slice".to_owned(), vtype: ValueType::U8, intype: TypeTok::Code(8), outtype: 8, strategy: Strategy::Slice, arity: 4 });
    defs.push(FieldDef { name: "ipv6".to_owned(), vtype: ValueType::U8, intype: TypeTok::Code(14), outtype: 9, strategy: Strategy::Counted, arity: 16 });
    defs.push(FieldDef { name: "ipv6c".to_owned(), vtype: ValueType::U8, intype: TypeTok::Code(25), outtype: 9, strategy: Strategy::Counted, arity: 16 });
    defs.push(FieldDef { name: "isize".to_owned(), vtype: ValueType::ISize, intype: TypeTok::ISize, outtype: 0, strategy: Strategy::Scalar, arity: 0 });
    defs.push(FieldDef { name: "isize_hex".to_owned(), vtype: ValueType::ISize, intype: TypeTok::HexSize, outtype: 0, strategy: Strategy::Scalar, arity: 0 });
    defs.push(FieldDef { name: "isize_hex_slice".to_owned(), vtype: ValueType::ISize, intype: TypeTok::HexSize, outtype: 0, strategy: Strategy::Slice, arity: 0 });
    defs.push(FieldDef { name: "isize_slice".to_owned(), vtype: ValueType::ISize, intype: TypeTok::ISize, outtype: 0, strategy: Strategy::Slice, arity: 0 });
    defs.push(FieldDef { name: "pid".to_owned(), vtype: ValueType::U32, intype: TypeTok::Code(8), outtype: 5, strategy: Strategy::Scalar, arity: 0 });
    defs.push(FieldDef { name: "pid_slice".to_owned(), vtype: ValueType::U32, intype: TypeTok::Code(8), outtype: 5, strategy: Strategy::Slice, arity: 0 });
    defs.push(FieldDef { name: "pointer".to_owned(), vtype: ValueType::USize, intype: TypeTok::HexSize, outtype: 0, strategy: Strategy::Scalar, arity: 0 });
    proof {
        reveal_strlit("i8");
        reveal_strlit("i8_hex");
        reveal_strlit("i8_hex_slice");
        reveal_strlit("i8_slice");
        reveal_strlit("ipv4");
        reveal_strlit("ipv4_slice");
        reveal_strlit("ipv6");
        reveal_strlit("ipv6c");
        reveal_strlit("isize");
        reveal_strlit("isize_hex");
        reveal_strlit("isize_hex_slice");
        reveal_strlit("isize_slice");
        reveal_strlit("pid");
        reveal_strlit("pid_slice");
        reveal_strlit("pointer");
        reveal_with_fuel(name_lt, 26);
        assert(name_lt(defs@[41].name@, defs@[42].name@));
        assert(name_lt(defs@[42].name@, defs@[43].name@));
        assert(name_lt(defs@[43].name@, defs@[44].name@));
        assert(name_lt(defs@[44].name@, defs@[45].name@));
        assert(name_lt(defs@[45].name@, defs@[46].name@));
        assert(name_lt(defs@[46].name@, defs@[47].name@));
        assert(name_lt(defs@[47].name@, defs@[48].name@));
        assert(name_lt(defs@[48].name@, defs@[49].name@));
        assert(name_lt(defs@[49].name@, defs@[50].name@));
        assert(name_lt(defs@[50].name@, defs@[51].name@));
        assert(name_lt(defs@[51].name@, defs@[52].name@));
        assert(name_lt(defs@[52].name@, defs@[53].name@));
        assert(name_lt(defs@[53].name@, defs@[54].name@));
        assert(name_lt(defs@[54].name@, defs@[55].name@));
        assert forall|i: int| 0 < i < defs@.len() implies #[trigger] name_lt(
            defs@[i - 1].name@,
            defs@[i].name@,
        ) by {
            if i < 42 {
                assert(name_lt(old(defs)@[i - 1].name@, old(defs)@[i].name@));
            }
        }
    }
}

#[verifier::rlimit(60)]
fn fill_e(defs: &mut Vec<FieldDef>)
    requires
        old(defs)@.len() == 56,
        adj_sorted(old(defs)@),
        old(defs)@[55].name@ == "pointer"@,
        part_a_ok(old(defs)@),
        part_b_ok(old(defs)@),
        part_c_ok(old(defs)@),
        part_d_ok(old(defs)@),
    ensures
        final(defs)@.len() == 70,
        adj_sorted(final(defs)@),
        final(defs)@[69].name@ == "str16_json"@,
        part_a_ok(final(defs)@),
        part_b_ok(final(defs)@),
        part_c_ok(final(defs)@),
        part_d_ok(final(defs)@),
        part_e_ok(final(defs)@),
{
    defs.push(FieldDef { name: "pointer_slice".to_owned(), vtype: ValueType::USize, intype: TypeTok::HexSize, outtype: 0, strategy: Strategy::Slice, arity: 0 });
    defs.push(FieldDef { name: "port".to_owned(), vtype: ValueType::U16, intype: TypeTok::Code(6), outtype: 7, strategy: Strategy::Scalar, arity: 0 });
    defs.push(FieldDef { name: "port_slice".to_owned(), vtype: ValueType::U16, intype: TypeTok::Code(6), outtype: 7, strategy: Strategy::Slice, arity: 0 });
    defs.push(FieldDef { name: "raw_data".to_owned(), vtype: ValueType::U8, intype: TypeTok::Code(0), outtype: 0, strategy: Strategy::RawData, arity: 0 });
    defs.push(FieldDef { name: "raw_field".to_owned(), vtype: ValueType::U8, intype: TypeTok::Code(0), outtype: 0, strategy: Strategy::RawField, arity: 0 });
    defs.push(FieldDef { name: "raw_field_slice".to_owned(), vtype: ValueType::U8, intype: TypeTok::Code(0), outtype: 0, strategy: Strategy::RawFieldSlice, arity: 0 });
    defs.push(FieldDef { name: "raw_meta".to_owned(), vtype: ValueType::EmptySlice, intype: TypeTok::Code(0), outtype: 0, strategy: Strategy::RawMeta, arity: 0 });
    defs.push(FieldDef { name: "raw_meta_slice".to_owned(), vtype: ValueType::EmptySlice, intype: TypeTok::Code(0), outtype: 0, strategy: Strategy::RawMetaSlice, arity: 0 });
    defs.push(FieldDef { name: "raw_struct".to_owned(), vtype: ValueType::EmptySlice, intype: TypeTok::Code(24), outtype: 0, strategy: Strategy::RawStruct, arity: 0 });
    defs.push(FieldDef { name: "raw_struct_slice".to_owned(), vtype: ValueType::EmptySlice, intype: TypeTok::Code(24), outtype: 0, strategy: Strategy::RawStructSlice, arity: 0 });
    defs.push(FieldDef { name: "socketaddress".to_owned(), vtype: ValueType::U8, intype: TypeTok::Code(14), outtype: 10, strategy: Strategy::Counted, arity: 0 });
    defs.push(FieldDef { name: "socketaddressc".to_owned(), vtype: ValueType::U8, intype: TypeTok::Code(25), outtype: 10, strategy: Strategy::Counted, arity: 0 });
    defs.push(FieldDef { name: "str16".to_owned(), vtype: ValueType::U16, intype: TypeTok::Code(22), outtype: 0, strategy: Strategy::Counted, arity: 0 });
    defs.push(FieldDef { name: "str16_json".to_owned(), vtype: ValueType::U16, intype: TypeTok::Code(22), outtype: 12, strategy: Strategy::Counted, arity: 0 });
    proof {
        reveal_strlit("pointer");
        reveal_strlit("pointer_slice");
        reveal_strlit("port");
        reveal_strlit("port_slice");
        reveal_strlit("raw_data");
        reveal_strlit("raw_field");
        reveal_strlit("raw_field_slice");
        reveal_strlit("raw_meta");
        reveal_strlit("raw_meta_slice");
        reveal_strlit("raw_struct");
        reveal_strlit("raw_struct_slice");
        reveal_strlit("socketaddress");
        reveal_strlit("socketaddressc");
        reveal_strlit("str16");
        reveal_strlit("str16_json");
        reveal_with_fuel(name_lt, 26);
        assert(name_lt(defs@[55].name@, defs@[56].name@));
        assert(name_lt(defs@[56].name@, defs@[57].name@));
        assert(name_lt(defs@[57].name@, defs@[58].name@));
        assert(name_lt(defs@[58].name@, defs@[59].name@));
        assert(name_lt(defs@[59].name@, defs@[60].name@));
        assert(name_lt(defs@[60].name@, defs@[61].name@));
        assert(name_lt(defs@[61].name@, defs@[62].name@));
        assert(name_lt(defs@[62].name@, defs@[63].name@));
        assert(name_lt(defs@[63].name@, defs@[64].name@));
        assert(name_lt(defs@[64].name@, defs@[65].name@));
        assert(name_lt(defs@[65].name@, defs@[66].name@));
        assert(name_lt(defs@[66].name@, defs@[67].name@));
        assert(name_lt(defs@[67].name@, defs@[68].name@));
        assert(name_lt(defs@[68].name@, defs@[69].name@));
        assert forall|i: int| 0 < i < defs@.len() implies #[trigger] name_lt(
            defs@[i - 1].name@,
            defs@[i].name@,
        ) by {
            if i < 56 {
                assert(name_lt(old(defs)@[i - 1].name@, old(defs)@[i].name@));
            }
        }
    }
}

#[verifier::rlimit(60)]
fn fill_f(defs: &mut Vec<FieldDef>)
    requires
        old(defs)@.len() == 70,
        adj_sorted(old(defs)@),
        old(defs)@[69].name@ == "str16_json"@,
        part_a_ok(old(defs)@),
        part_b_ok(old(defs)@),
        part_c_ok(old(defs)@),
        part_d_ok(old(defs)@),
        part_e_ok(old(defs)@),
    ensures
        final(defs)@.len() == 84,
        adj_sorted(final(defs)@),
        final(defs)@[83].name@ == "u16_hex_slice"@,
        part_a_ok(final(defs)@),
        part_b_ok(final(defs)@),
        part_c_ok(final(defs)@),
        part_d_ok(final(defs)@),
        part_e_ok(final(defs)@),
        part_f_ok(final(defs)@),
{
    defs.push(FieldDef { name: "str16_xml".to_owned(), vtype: ValueType::U16, intype: TypeTok::Code(22), outtype: 11, strategy: Strategy::Counted, arity: 0 });
    defs.push(FieldDef { name: "str8".to_owned(), vtype: ValueType::U8, intype: TypeTok::Code(23), outtype: 35, strategy: Strategy::Counted, arity: 0 });
    defs.push(FieldDef { name: "str8_cp1252".to_owned(), vtype: ValueType::U8, intype: TypeTok::Code(23), outtype: 0, strategy: Strategy::Counted, arity: 0 });
    defs.push(FieldDef { name: "str8_json".to_owned(), vtype: ValueType::U8, intype: TypeTok::Code(23), outtype: 12, strategy: Strategy::Counted, arity: 0 });
    defs.push(FieldDef { name: "str8_xml".to_owned(), vtype: ValueType::U8, intype: TypeTok::Code(23), outtype: 11, strategy: Strategy::Counted, arity: 0 });
    defs.push(FieldDef { name: "struct".to_owned(), vtype: ValueType::EmptySlice, intype: TypeTok::Code(24), outtype: 0, strategy: Strategy::Struct, arity: 0 });
    defs.push(FieldDef { name: "systemtime".to_owned(), vtype: ValueType::I64, intype: TypeTok::Code(17), outtype: 0, strategy: Strategy::SystemTime, arity: 0 });
    defs.push(FieldDef { name: "tid".to_owned(), vtype: ValueType::U32, intype: TypeTok::Code(8), outtype: 6, strategy: Strategy::Scalar, arity: 0 });
    defs.push(FieldDef { name: "tid_slice".to_owned(), vtype: ValueType::U32, intype: TypeTok::Code(8), outtype: 6, strategy: Strategy::Slice, arity: 0 });
    defs.push(FieldDef { name: "time32".to_owned(), vtype: ValueType::I64, intype: TypeTok::Code(17), outtype: 0, strategy: Strategy::Time32, arity: 0 });
    defs.push(FieldDef { name: "time64".to_owned(), vtype: ValueType::I64, intype: TypeTok::Code(17), outtype: 0, strategy: Strategy::Time64, arity: 0 });
    defs.push(FieldDef { name: "u16".to_owned(), vtype: ValueType::U16, intype: TypeTok::Code(6), outtype: 0, strategy: Strategy::Scalar, arity: 0 });
    defs.push(FieldDef { name: "u16_hex".to_owned(), vtype: ValueType::U16, intype: TypeTok::Code(6), outtype: 4, strategy: Strategy::Scalar, arity: 0 });
    defs.push(FieldDef { name: "u16_hex_slice".to_owned(), vtype: ValueType::U16, intype: TypeTok::Code(6), outtype: 4, strategy: Strategy::Slice, arity: 0 });
    proof {
        reveal_strlit("str16_json");
        reveal_strlit("str16_xml");
        reveal_strlit("str8");
        reveal_strlit("str8_cp1252");
        reveal_strlit("str8_json");
        reveal_strlit("str8_xml");
        reveal_strlit("struct");
        reveal_strlit("systemtime");
        reveal_strlit("tid");
        reveal_strlit("tid_slice");
        reveal_strlit("time32");
        reveal_strlit("time64");
        reveal_strlit("u16");
        reveal_strlit("u16_hex");
        reveal_strlit("u16_hex_slice");
        reveal_with_fuel(name_lt, 26);
        assert(name_lt(defs@[69].name@, defs@[70].name@));
        assert(name_lt(defs@[70].name@, defs@[71].name@));
        assert(name_lt(defs@[71].name@, defs@[72].name@));
        assert(name_lt(defs@[72].name@, defs@[73].name@));
        assert(name_lt(defs@[73].name@, defs@[74].name@));
        assert(name_lt(defs@[74].name@, defs@[75].name@));
        assert(name_lt(defs@[75].name@, defs@[76].name@));
        assert(name_lt(defs@[76].name@, defs@[77].name@));
        assert(name_lt(defs@[77].name@, defs@[78].name@));
        assert(name_lt(defs@[78].name@, defs@[79].name@));
        assert(name_lt(defs@[79].name@, defs@[80].name@));
        assert(name_lt(defs@[80].name@, defs@[81].name@));
        assert(name_lt(defs@[81].name@, defs@[82].name@));
        assert(name_lt(defs@[82].name@, defs@[83].name@));
        assert forall|i: int| 0 < i < defs@.len() implies #[trigger] name_lt(
            defs@[i - 1].name@,
            defs@[i].name@,
        ) by {
            if i < 70 {
                assert(name_lt(old(defs)@[i - 1].name@, old(defs)@[i].name@));
            }
        }
    }
}

#[verifier::rlimit(60)]
fn fill_g(defs: &mut Vec<FieldDef>)
    requires
        old(defs)@.len() == 84,
        adj_sorted(old(defs)@),
        old(defs)@[83].name@ == "u16_hex_slice"@,
        part_a_ok(old(defs)@),
        part_b_ok(old(defs)@),
        part_c_ok(old(defs)@),
        part_d_ok(old(defs)@),
        part_e_ok(old(defs)@),
        part_f_ok(old(defs)@),
    ensures
        final(defs)@.len() == 98,
        adj_sorted(final(defs)@),
        final(defs)@[97].name@ == "usize"@,
        part_a_ok(final(defs)@),
        part_b_ok(final(defs)@),
        part_c_ok(final(defs)@),
        part_d_ok(final(defs)@),
        part_e_ok(final(defs)@),
        part_f_ok(final(defs)@),
        part_g_ok(final(defs)@),
{
    defs.push(FieldDef { name: "u16_slice".to_owned(), vtype: ValueType::U16, intype: TypeTok::Code(6), outtype: 0, strategy: Strategy::Slice, arity: 0 });
    defs.push(FieldDef { name: "u32".to_owned(), vtype: ValueType::U32, intype: TypeTok::Code(8), outtype: 0, strategy: Strategy::Scalar, arity: 0 });
    defs.push(FieldDef { name: "u32_hex".to_owned(), vtype: ValueType::U32, intype: TypeTok::Code(20), outtype: 0, strategy: Strategy::Scalar, arity: 0 });
    defs.push(FieldDef { name: "u32_hex_slice".to_owned(), vtype: ValueType::U32, intype: TypeTok::Code(20), outtype: 0, strategy: Strategy::Slice, arity: 0 });
    defs.push(FieldDef { name: "u32_slice".to_owned(), vtype: ValueType::U32, intype: TypeTok::Code(8), outtype: 0, strategy: Strategy::Slice, arity: 0 });
    defs.push(FieldDef { name: "u64".to_owned(), vtype: ValueType::U64, intype: TypeTok::Code(10), outtype: 0, strategy: Strategy::Scalar, arity: 0 });
    defs.push(FieldDef { name: "u64_hex".to_owned(), vtype: ValueType::U64, intype: TypeTok::Code(21), outtype: 0, strategy: Strategy::Scalar, arity: 0 });
    defs.push(FieldDef { name: "u64_hex_slice".to_owned(), vtype: ValueType::U64, intype: TypeTok::Code(21), outtype: 0, strategy: Strategy::Slice, arity: 0 });
    defs.push(FieldDef { name: "u64_slice".to_owned(), vtype: ValueType::U64, intype: TypeTok::Code(10), outtype: 0, strategy: Strategy::Slice, arity: 0 });
    defs.push(FieldDef { name: "u8".to_owned(), vtype: ValueType::U8, intype: TypeTok::Code(4), outtype: 0, strategy: Strategy::Scalar, arity: 0 });
    defs.push(FieldDef { name: "u8_hex".to_owned(), vtype: ValueType::U8, intype: TypeTok::Code(4), outtype: 4, strategy: Strategy::Scalar, arity: 0 });
    defs.push(FieldDef { name: "u8_hex_slice".to_owned(), vtype: ValueType::U8, intype: TypeTok::Code(4), outtype: 4, strategy: Strategy::Slice, arity: 0 });
    defs.push(FieldDef { name: "u8_slice".to_owned(), vtype: ValueType::U8, intype: TypeTok::Code(4), outtype: 0, strategy: Strategy::Slice, arity: 0 });
    defs.push(FieldDef { name: "usize".to_owned(), vtype: ValueType::USize, intype: TypeTok::USize, outtype: 0, strategy: Strategy::Scalar, arity: 0 });
    proof {
        reveal_strlit("u16_hex_slice");
        reveal_strlit("u16_slice");
        reveal_strlit("u32");
        reveal_strlit("u32_hex");
        reveal_strlit("u32_hex_slice");
        reveal_strlit("u32_slice");
        reveal_strlit("u64");
        reveal_strlit("u64_hex");
        reveal_strlit("u64_hex_slice");
        reveal_strlit("u64_slice");
        reveal_strlit("u8");
        reveal_strlit("u8_hex");
        reveal_strlit("u8_hex_slice");
        reveal_strlit("u8_slice");
        reveal_strlit("usize");
        reveal_with_fuel(name_lt, 26);
        assert(name_lt(defs@[83].name@, defs@[84].name@));
        assert(name_lt(defs@[84].name@, defs@[85].name@));
        assert(name_lt(defs@[85].name@, defs@[86].name@));
        assert(name_lt(defs@[86].name@, defs@[87].name@));
        assert(name_lt(defs@[87].name@, defs@[88].name@));
        assert(name_lt(defs@[88].name@, defs@[89].name@));
        assert(name_lt(defs@[89].name@, defs@[90].name@));
        assert(name_lt(defs@[90].name@, defs@[91].name@));
        assert(name_lt(defs@[91].name@, defs@[92].name@));
        assert(name_lt(defs@[92].name@, defs@[93].name@));
        assert(name_lt(defs@[93].name@, defs@[94].name@));
        assert(name_lt(defs@[94].name@, defs@[95].name@));
        assert(name_lt(defs@[95].name@, defs@[96].name@));
        assert(name_lt(defs@[96].name@, defs@[97].name@));
        assert forall|i: int| 0 < i < defs@.len() implies #[trigger] name_lt(
            defs@[i - 1].name@,
            defs@[i].name@,
        ) by {
            if i < 84 {
                assert(name_lt(old(defs)@[i - 1].name@, old(defs)@[i].name@));
            }
        }
    }
}

#[verifier::rlimit(60)]
fn fill_h(defs: &mut Vec<FieldDef>)
    requires
        old(defs)@.len() == 98,
        adj_sorted(old(defs)@),
        old(defs)@[97].name@ == "usize"@,
        part_a_ok(old(defs)@),
        part_b_ok(old(defs)@),
        part_c_ok(old(defs)@),
        part_d_ok(old(defs)@),
        part_e_ok(old(defs)@),
        part_f_ok(old(defs)@),
        part_g_ok(old(defs)@),
    ensures
        final(defs)@.len() == 112,
        adj_sorted(final(defs)@),
        final(defs)@[111].name@ == "win_systemtime_utc_slice"@,
        part_a_ok(final(defs)@),
        part_b_ok(final(defs)@),
        part_c_ok(final(defs)@),
        part_d_ok(final(defs)@),
        part_e_ok(final(defs)@),
        part_f_ok(final(defs)@),
        part_g_ok(final(defs)@),
        part_h_ok(final(defs)@),
{
    defs.push(FieldDef { name: "usize_hex".to_owned(), vtype: ValueType::USize, intype: TypeTok::HexSize, outtype: 0, strategy: Strategy::Scalar, arity: 0 });
    defs.push(FieldDef { name: "usize_hex_slice".to_owned(), vtype: ValueType::USize, intype: TypeTok::HexSize, outtype: 0, strategy: Strategy::Slice, arity: 0 });
    defs.push(FieldDef { name: "usize_slice".to_owned(), vtype: ValueType::USize, intype: TypeTok::USize, outtype: 0, strategy: Strategy::Slice, arity: 0 });
    defs.push(FieldDef { name: "win_error".to_owned(), vtype: ValueType::U32, intype: TypeTok::Code(8), outtype: 13, strategy: Strategy::Scalar, arity: 0 });
    defs.push(FieldDef { name: "win_error_slice".to_owned(), vtype: ValueType::U32, intype: TypeTok::Code(8), outtype: 13, strategy: Strategy::Slice, arity: 0 });
    defs.push(FieldDef { name: "win_filetime".to_owned(), vtype: ValueType::I64, intype: TypeTok::Code(17), outtype: 0, strategy: Strategy::Scalar, arity: 0 });
    defs.push(FieldDef { name: "win_filetime_slice".to_owned(), vtype: ValueType::I64, intype: TypeTok::Code(17), outtype: 0, strategy: Strategy::Slice, arity: 0 });
    defs.push(FieldDef { name: "win_ntstatus".to_owned(), vtype: ValueType::I32, intype: TypeTok::Code(20), outtype: 14, strategy: Strategy::Scalar, arity: 0 });
    defs.push(FieldDef { name: "win_ntstatus_slice".to_owned(), vtype: ValueType::I32, intype: TypeTok::Code(20), outtype: 14, strategy: Strategy::Slice, arity: 0 });
    defs.push(FieldDef { name: "win_sid".to_owned(), vtype: ValueType::U8, intype: TypeTok::Code(19), outtype: 0, strategy: Strategy::Sid, arity: 0 });
    defs.push(FieldDef { name: "win_systemtime".to_owned(), vtype: ValueType::U16, intype: TypeTok::Code(18), outtype: 0, strategy: Strategy::Scalar, arity: 8 });
    defs.push(FieldDef { name: "win_systemtime_slice".to_owned(), vtype: ValueType::U16, intype: TypeTok::Code(18), outtype: 0, strategy: Strategy::Slice, arity: 8 });
    defs.push(FieldDef { name: "win_systemtime_utc".to_owned(), vtype: ValueType::U16, intype: TypeTok::Code(18), outtype: 38, strategy: Strategy::Scalar, arity: 8 });
    defs.push(FieldDef { name: "win_systemtime_utc_slice".to_owned(), vtype: ValueType::U16, intype: TypeTok::Code(18), outtype: 38, strategy: Strategy::Slice, arity: 8 });
    proof {
        reveal_strlit("usize");
        reveal_strlit("usize_hex");
        reveal_strlit("usize_hex_slice");
        reveal_strlit("usize_slice");
        reveal_strlit("win_error");
        reveal_strlit("win_error_slice");
        reveal_strlit("win_filetime");
        reveal_strlit("win_filetime_slice");
        reveal_strlit("win_ntstatus");
        reveal_strlit("win_ntstatus_slice");
        reveal_strlit("win_sid");
        reveal_strlit("win_systemtime");
        reveal_strlit("win_systemtime_slice");
        reveal_strlit("win_systemtime_utc");
        reveal_strlit("win_systemtime_utc_slice");
        reveal_with_fuel(name_lt, 26);
        assert(name_lt(defs@[97].name@, defs@[98].name@));
        assert(name_lt(defs@[98].name@, defs@[99].name@));
        assert(name_lt(defs@[99].name@, defs@[100].name@));
        assert(name_lt(defs@[100].name@, defs@[101].name@));
        assert(name_lt(defs@[101].name@, defs@[102].name@));
        assert(name_lt(defs@[102].name@, defs@[103].name@));
        assert(name_lt(defs@[103].name@, defs@[104].name@));
        assert(name_lt(defs@[104].name@, defs@[105].name@));
        assert(name_lt(defs@[105].name@, defs@[106].name@));
        assert(name_lt(defs@[106].name@, defs@[107].name@));
        assert(name_lt(defs@[107].name@, defs@[108].name@));
        assert(name_lt(defs@[108].name@, defs@[109].name@));
        assert(name_lt(defs@[109].name@, defs@[110].name@));
        assert(name_lt(defs@[110].name@, defs@[111].name@));
        assert forall|i: int| 0 < i < defs@.len() implies #[trigger] name_lt(
            defs@[i - 1].name@,
            defs@[i].name@,
        ) by {
            if i < 98 {
                assert(name_lt(old(defs)@[i - 1].name@, old(defs)@[i].name@));
            }
        }
    }
}

impl Catalog {
    /// Builds the catalog. The entries come out in strictly increasing name
    /// order: the binary-search precondition holds of every catalog this
    /// returns.
    pub fn new() -> (c: Catalog)
        ensures
            c.wf(),
            c.defs@.len() == 112,
            catalog_ok(c.defs@),
    {
        let mut defs: Vec<FieldDef> = Vec::new();
        fill_a(&mut defs);
        fill_b(&mut defs);
        fill_c(&mut defs);
        fill_d(&mut defs);
        fill_e(&mut defs);
        fill_f(&mut defs);
        fill_g(&mut defs);
        fill_h(&mut defs);
        proof {
            lemma_adj_sorted_implies_defs_sorted(defs@);
        }
        Catalog { defs }
    }

    /// The catalog's invariant: entries sorted strictly by name.
    pub open spec fn wf(&self) -> bool {
        defs_sorted(self.defs@)
    }

    /// The number of entries.
    pub fn len(&self) -> (n: usize)
        ensures
            n == self.defs@.len(),
    {
        self.defs.len()
    }

    /// Resolves a field-kind name: the index of the entry so named, or `None`
    /// if the catalog holds no such entry.
    pub fn find(&self, name: &str) -> (r: Option<usize>)
        requires
            self.wf(),
        ensures
            match r {
                Some(i) => i < self.defs@.len() && self.defs@[i as int].name@ == name@,
                None => forall|i: int| 0 <= i < self.defs@.len() ==> self.defs@[i].name@ != name@,
            },
    {
        let mut lo: usize = 0;
        let mut hi: usize = self.defs.len();
        while lo < hi
            invariant
                self.wf(),
                lo <= hi <= self.defs@.len(),
                forall|i: int| 0 <= i < lo ==> name_lt(#[trigger] self.defs@[i].name@, name@),
                forall|i: int|
                    hi <= i < self.defs@.len() ==> name_lt(name@, #[trigger] self.defs@[i].name@),
            decreases hi - lo,
        {
            let mid = lo + (hi - lo) / 2;
            match name_order(self.defs[mid].name.as_str(), name) {
                NameOrder::Same => {
                    return Some(mid);
                },
                NameOrder::Before => {
                    proof {
                        assert forall|i: int| 0 <= i < mid + 1 implies name_lt(
                            #[trigger] self.defs@[i].name@,
                            name@,
                        ) by {
                            if lo <= i < mid {
                                lemma_name_lt_trans(
                                    self.defs@[i].name@,
                                    self.defs@[mid as int].name@,
                                    name@,
                                );
                            }
                        }
                    }
                    lo = mid + 1;
                },
                NameOrder::After => {
                    proof {
                        assert forall|i: int| mid <= i < self.defs@.len() implies name_lt(
                            name@,
                            #[trigger] self.defs@[i].name@,
                        ) by {
                            if mid < i < hi {
                                lemma_name_lt_trans(
                                    name@,
                                    self.defs@[mid as int].name@,
                                    self.defs@[i].name@,
                                );
                            }
                        }
                    }
                    hi = mid;
                },
            }
        }
        proof {
            assert forall|i: int| 0 <= i < self.defs@.len() implies self.defs@[i].name@
                != name@ by {
                if i < lo {
                    lemma_name_lt_asym(self.defs@[i].name@, name@);
                } else {
                    lemma_name_lt_asym(name@, self.defs@[i].name@);
                }
            }
        }
        None
    }
}

/// The catalog's build-time self-test: scans every adjacent pair of entries
/// and reports whether the table is strictly name-sorted. The catalog this
/// library builds always passes: the result is proved to be `true`.
pub fn check_field_options() -> (ok: bool)
    ensures
        ok,
{
    let catalog = Catalog::new();
    let mut ok = true;
    let mut i: usize = 1;
    while i < catalog.defs.len()
        invariant
            catalog.wf(),
            ok,
            1 <= i,
        decreases catalog.defs@.len() - i,
    {
        match name_order(catalog.defs[i - 1].name.as_str(), catalog.defs[i].name.as_str()) {
            NameOrder::Before => {},
            _ => {
                proof {
                    assert(name_lt(catalog.defs@[i - 1].name@, catalog.defs@[i as int].name@));
                }
                ok = false;
            },
        }
        i = i + 1;
    }
    ok
}

} // verus!
