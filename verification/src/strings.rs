//! The fixed sets of symbolic names that enumeration-valued options accept.
//!
//! Each list's contents are pinned by the builder's contract: a name is
//! rewritten to a qualified constant reference exactly when it stands here.

use vstd::prelude::*;
use vstd::string::StringSliceAdditionalSpecFns;

verus! {

/// The bytes a character sequence encodes to.
pub open spec fn str_bytes(s: Seq<char>) -> Seq<u8> {
    vstd::utf8::encode_utf8(s)
}

/// Whether the bytes hold an embedded NUL.
pub open spec fn contains_zero(b: Seq<u8>) -> bool {
    exists|i: int| 0 <= i < b.len() && b[i] == 0
}

/// Whether every byte is an ASCII lowercase letter or digit.
pub open spec fn lower_digit_only(b: Seq<u8>) -> bool {
    forall|i: int| 0 <= i < b.len() ==> (97 <= #[trigger] b[i] <= 122 || 48 <= b[i] <= 57)
}

/// Whether the text holds an embedded NUL byte.
pub fn has_nul(s: &str) -> (r: bool)
    ensures
        r == contains_zero(s.spec_bytes()),
{
    let b = s.as_bytes();
    let mut i: usize = 0;
    while i < b.len()
        invariant
            i <= b@.len(),
            b@ == s.spec_bytes(),
            forall|j: int| 0 <= j < i ==> b@[j] != 0,
        decreases b@.len() - i,
    {
        if b[i] == 0 {
            return true;
        }
        i = i + 1;
    }
    false
}

/// Whether the text is all ASCII lowercase letters and digits.
pub fn is_lower_digit(s: &str) -> (r: bool)
    ensures
        r == lower_digit_only(s.spec_bytes()),
{
    let b = s.as_bytes();
    let mut i: usize = 0;
    while i < b.len()
        invariant
            i <= b@.len(),
            b@ == s.spec_bytes(),
            forall|j: int| 0 <= j < i ==> (97 <= #[trigger] b@[j] <= 122 || 48 <= b@[j] <= 57),
        decreases b@.len() - i,
    {
        let c = b[i];
        if !((c >= 97 && c <= 122) || (c >= 48 && c <= 57)) {
            return false;
        }
        i = i + 1;
    }
    true
}

/// The same list, as character sequences for specifications.
pub open spec fn channel_name_views() -> Seq<Seq<char>> {
    seq![
        "ProviderMetadata"@,
        "TraceClassic"@,
        "TraceLogging"@,
    ]
}

/// Channel names the channel(...) option recognizes.
pub fn channel_names() -> (r: Vec<String>)
    ensures
        crate::expr::views_of(r@) =~= channel_name_views(),
{
    let mut v: Vec<String> = Vec::new();
    v.push("ProviderMetadata".to_owned());
    v.push("TraceClassic".to_owned());
    v.push("TraceLogging".to_owned());
    proof {
        assert(crate::expr::views_of(v@) =~= channel_name_views());
    }
    v
}

/// The same list, as character sequences for specifications.
pub open spec fn level_name_views() -> Seq<Seq<char>> {
    seq![
        "Critical"@,
        "Error"@,
        "Informational"@,
        "LogAlways"@,
        "Verbose"@,
        "Warning"@,
    ]
}

/// Level names the level(...) option recognizes.
pub fn level_names() -> (r: Vec<String>)
    ensures
        crate::expr::views_of(r@) =~= level_name_views(),
{
    let mut v: Vec<String> = Vec::new();
    v.push("Critical".to_owned());
    v.push("Error".to_owned());
    v.push("Informational".to_owned());
    v.push("LogAlways".to_owned());
    v.push("Verbose".to_owned());
    v.push("Warning".to_owned());
    proof {
        assert(crate::expr::views_of(v@) =~= level_name_views());
    }
    v
}

/// The same list, as character sequences for specifications.
pub open spec fn opcode_name_views() -> Seq<Seq<char>> {
    seq![
        "DC_Start"@,
        "DC_Stop"@,
        "Extension"@,
        "Info"@,
        "Receive"@,
        "Reply"@,
        "Resume"@,
        "Send"@,
        "Start"@,
        "Stop"@,
        "Suspend"@,
    ]
}

/// Opcode names the opcode(...) option recognizes.
pub fn opcode_names() -> (r: Vec<String>)
    ensures
        crate::expr::views_of(r@) =~= opcode_name_views(),
{
    let mut v: Vec<String> = Vec::new();
    v.push("DC_Start".to_owned());
    v.push("DC_Stop".to_owned());
    v.push("Extension".to_owned());
    v.push("Info".to_owned());
    v.push("Receive".to_owned());
    v.push("Reply".to_owned());
    v.push("Resume".to_owned());
    v.push("Send".to_owned());
    v.push("Start".to_owned());
    v.push("Stop".to_owned());
    v.push("Suspend".to_owned());
    proof {
        assert(crate::expr::views_of(v@) =~= opcode_name_views());
    }
    v
}

/// The same list, as character sequences for specifications.
pub open spec fn intype_name_views() -> Seq<Seq<char>> {
    seq![
        "Binary"@,
        "Bool32"@,
        "CStr16"@,
        "CStr8"@,
        "CountedBinary"@,
        "F32"@,
        "F64"@,
        "FileTime"@,
        "Guid"@,
        "Hex32"@,
        "Hex64"@,
        "HexSize"@,
        "I16"@,
        "I32"@,
        "I64"@,
        "I8"@,
        "ISize"@,
        "Invalid"@,
        "Sid"@,
        "Str16"@,
        "Str8"@,
        "Struct"@,
        "SystemTime"@,
        "U16"@,
        "U32"@,
        "U64"@,
        "U8"@,
        "USize"@,
    ]
}

/// In-type names an explicit type-code argument recognizes.
pub fn intype_names() -> (r: Vec<String>)
    ensures
        crate::expr::views_of(r@) =~= intype_name_views(),
{
    let mut v: Vec<String> = Vec::new();
    v.push("Binary".to_owned());
    v.push("Bool32".to_owned());
    v.push("CStr16".to_owned());
    v.push("CStr8".to_owned());
    v.push("CountedBinary".to_owned());
    v.push("F32".to_owned());
    v.push("F64".to_owned());
    v.push("FileTime".to_owned());
    v.push("Guid".to_owned());
    v.push("Hex32".to_owned());
    v.push("Hex64".to_owned());
    v.push("HexSize".to_owned());
    v.push("I16".to_owned());
    v.push("I32".to_owned());
    v.push("I64".to_owned());
    v.push("I8".to_owned());
    v.push("ISize".to_owned());
    v.push("Invalid".to_owned());
    v.push("Sid".to_owned());
    v.push("Str16".to_owned());
    v.push("Str8".to_owned());
    v.push("Struct".to_owned());
    v.push("SystemTime".to_owned());
    v.push("U16".to_owned());
    v.push("U32".to_owned());
    v.push("U64".to_owned());
    v.push("U8".to_owned());
    v.push("USize".to_owned());
    proof {
        assert(crate::expr::views_of(v@) =~= intype_name_views());
    }
    v
}

/// The same list, as character sequences for specifications.
pub open spec fn outtype_name_views() -> Seq<Seq<char>> {
    seq![
        "Boolean"@,
        "CodePointer"@,
        "DateTime"@,
        "DateTimeCultureInsensitive"@,
        "DateTimeUtc"@,
        "Default"@,
        "HResult"@,
        "Hex"@,
        "IPv4"@,
        "IPv6"@,
        "Json"@,
        "NoPrint"@,
        "NtStatus"@,
        "Pid"@,
        "Pkcs7WithTypeInfo"@,
        "Port"@,
        "Signed"@,
        "SocketAddress"@,
        "String"@,
        "Tid"@,
        "Unsigned"@,
        "Utf8"@,
        "Win32Error"@,
        "Xml"@,
    ]
}

/// Out-type names the format(...) option recognizes.
pub fn outtype_names() -> (r: Vec<String>)
    ensures
        crate::expr::views_of(r@) =~= outtype_name_views(),
{
    let mut v: Vec<String> = Vec::new();
    v.push("Boolean".to_owned());
    v.push("CodePointer".to_owned());
    v.push("DateTime".to_owned());
    v.push("DateTimeCultureInsensitive".to_owned());
    v.push("DateTimeUtc".to_owned());
    v.push("Default".to_owned());
    v.push("HResult".to_owned());
    v.push("Hex".to_owned());
    v.push("IPv4".to_owned());
    v.push("IPv6".to_owned());
    v.push("Json".to_owned());
    v.push("NoPrint".to_owned());
    v.push("NtStatus".to_owned());
    v.push("Pid".to_owned());
    v.push("Pkcs7WithTypeInfo".to_owned());
    v.push("Port".to_owned());
    v.push("Signed".to_owned());
    v.push("SocketAddress".to_owned());
    v.push("String".to_owned());
    v.push("Tid".to_owned());
    v.push("Unsigned".to_owned());
    v.push("Utf8".to_owned());
    v.push("Win32Error".to_owned());
    v.push("Xml".to_owned());
    proof {
        assert(crate::expr::views_of(v@) =~= outtype_name_views());
    }
    v
}

} // verus!
