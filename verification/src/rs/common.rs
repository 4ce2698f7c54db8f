//! The shared Rust module: binary reader and writer, error types, the
//! Custom types shared between services, and the socket handle.

use vstd::prelude::*;
use crate::buf::{build_lines, CodeBuf};
use crate::cs::common::{any_shared, any_shared_exec, services_ok};
use crate::cs::exports::Emission;
use crate::meta_spec::tree_ok;
use crate::model::Service;
use crate::rs::exports::{collect_custom_type_exports_rs, shared_exports};
use crate::text::views;

verus! {

/// The file header of the shared Rust module.
#[verifier::opaque]
pub open spec fn rs_common_head() -> Seq<Seq<char>> {
    seq![
        "// Auto-generated by afast. DO NOT EDIT."@,
        "#![allow(dead_code, clippy::type_complexity, clippy::needless_borrow)]"@,
        Seq::<char>::empty(),
    ]
}

fn push_rs_common_head(cb: &mut CodeBuf)
    ensures
        final(cb)@ == old(cb)@ + rs_common_head(),
{
    let ghost start = cb@;
    let ghost g1 = cb@;
    cb.l("// Auto-generated by afast. DO NOT EDIT.");
    cb.l("#![allow(dead_code, clippy::type_complexity, clippy::needless_borrow)]");
    cb.b();
    assert(cb@ =~= g1 + seq![
        "// Auto-generated by afast. DO NOT EDIT."@,
        "#![allow(dead_code, clippy::type_complexity, clippy::needless_borrow)]"@,
        Seq::<char>::empty(),
    ]);
    proof {
        reveal(rs_common_head);
    }
    assert(cb@ =~= start + rs_common_head());
}

/// The shared Rust little-endian binary writer.
#[verifier::opaque]
pub open spec fn rs_writer() -> Seq<Seq<char>> {
    seq![
        "/// Little-endian binary serializer for the afast wire protocol."@,
        "#[derive(Debug, Default)]"@,
        "pub struct BinaryWriter {"@,
        "    buf: Vec<u8>,"@,
        "}"@,
        Seq::<char>::empty(),
        "impl BinaryWriter {"@,
        "    pub fn new() -> Self { Self { buf: Vec::new() } }"@,
        "    pub fn write_u8(&mut self, n: u8) { self.buf.push(n); }"@,
        "    pub fn write_i8(&mut self, n: i8) { self.buf.push(n as u8); }"@,
        "    pub fn write_u16(&mut self, n: u16) { self.buf.extend_from_slice(&n.to_le_bytes()); }"@,
        "    pub fn write_i16(&mut self, n: i16) { self.buf.extend_from_slice(&n.to_le_bytes()); }"@,
        "    pub fn write_u32(&mut self, n: u32) { self.buf.extend_from_slice(&n.to_le_bytes()); }"@,
        "    pub fn write_i32(&mut self, n: i32) { self.buf.extend_from_slice(&n.to_le_bytes()); }"@,
        "    pub fn write_u64(&mut self, n: u64) { self.buf.extend_from_slice(&n.to_le_bytes()); }"@,
        "    pub fn write_i64(&mut self, n: i64) { self.buf.extend_from_slice(&n.to_le_bytes()); }"@,
        "    pub fn write_f32(&mut self, n: f32) { self.buf.extend_from_slice(&n.to_le_bytes()); }"@,
        "    pub fn write_f64(&mut self, n: f64) { self.buf.extend_from_slice(&n.to_le_bytes()); }"@,
        "    pub fn write_bool(&mut self, b: bool) { self.buf.push(if b { 1 } else { 0 }); }"@,
        "    pub fn write_str(&mut self, s: &str) {"@,
        "        let bytes = s.as_bytes();"@,
        "        self.write_u32(bytes.len() as u32);"@,
        "        self.buf.extend_from_slice(bytes);"@,
        "    }"@,
        "    pub fn write_bytes(&mut self, data: &[u8]) {"@,
        "        self.write_u32(data.len() as u32);"@,
        "        self.buf.extend_from_slice(data);"@,
        "    }"@,
        "    pub fn write_raw(&mut self, data: &[u8]) {"@,
        "        self.buf.extend_from_slice(data);"@,
        "    }"@,
        "    pub fn into_bytes(self) -> Vec<u8> { self.buf }"@,
        "}"@,
        Seq::<char>::empty(),
    ]
}

fn push_rs_writer(cb: &mut CodeBuf)
    ensures
        final(cb)@ == old(cb)@ + rs_writer(),
{
    let ghost start = cb@;
    let ghost g2 = cb@;
    cb.l("/// Little-endian binary serializer for the afast wire protocol.");
    cb.l("#[derive(Debug, Default)]");
    cb.l("pub struct BinaryWriter {");
    cb.l("    buf: Vec<u8>,");
    cb.l("}");
    cb.b();
    cb.l("impl BinaryWriter {");
    cb.l("    pub fn new() -> Self { Self { buf: Vec::new() } }");
    cb.l("    pub fn write_u8(&mut self, n: u8) { self.buf.push(n); }");
    cb.l("    pub fn write_i8(&mut self, n: i8) { self.buf.push(n as u8); }");
    cb.l("    pub fn write_u16(&mut self, n: u16) { self.buf.extend_from_slice(&n.to_le_bytes()); }");
    cb.l("    pub fn write_i16(&mut self, n: i16) { self.buf.extend_from_slice(&n.to_le_bytes()); }");
    cb.l("    pub fn write_u32(&mut self, n: u32) { self.buf.extend_from_slice(&n.to_le_bytes()); }");
    cb.l("    pub fn write_i32(&mut self, n: i32) { self.buf.extend_from_slice(&n.to_le_bytes()); }");
    cb.l("    pub fn write_u64(&mut self, n: u64) { self.buf.extend_from_slice(&n.to_le_bytes()); }");
    cb.l("    pub fn write_i64(&mut self, n: i64) { self.buf.extend_from_slice(&n.to_le_bytes()); }");
    cb.l("    pub fn write_f32(&mut self, n: f32) { self.buf.extend_from_slice(&n.to_le_bytes()); }");
    cb.l("    pub fn write_f64(&mut self, n: f64) { self.buf.extend_from_slice(&n.to_le_bytes()); }");
    cb.l("    pub fn write_bool(&mut self, b: bool) { self.buf.push(if b { 1 } else { 0 }); }");
    cb.l("    pub fn write_str(&mut self, s: &str) {");
    cb.l("        let bytes = s.as_bytes();");
    cb.l("        self.write_u32(bytes.len() as u32);");
    cb.l("        self.buf.extend_from_slice(bytes);");
    cb.l("    }");
    cb.l("    pub fn write_bytes(&mut self, data: &[u8]) {");
    cb.l("        self.write_u32(data.len() as u32);");
    cb.l("        self.buf.extend_from_slice(data);");
    cb.l("    }");
    cb.l("    pub fn write_raw(&mut self, data: &[u8]) {");
    cb.l("        self.buf.extend_from_slice(data);");
    cb.l("    }");
    cb.l("    pub fn into_bytes(self) -> Vec<u8> { self.buf }");
    cb.l("}");
    cb.b();
    assert(cb@ =~= g2 + seq![
        "/// Little-endian binary serializer for the afast wire protocol."@,
        "#[derive(Debug, Default)]"@,
        "pub struct BinaryWriter {"@,
        "    buf: Vec<u8>,"@,
        "}"@,
        Seq::<char>::empty(),
        "impl BinaryWriter {"@,
        "    pub fn new() -> Self { Self { buf: Vec::new() } }"@,
        "    pub fn write_u8(&mut self, n: u8) { self.buf.push(n); }"@,
        "    pub fn write_i8(&mut self, n: i8) { self.buf.push(n as u8); }"@,
        "    pub fn write_u16(&mut self, n: u16) { self.buf.extend_from_slice(&n.to_le_bytes()); }"@,
        "    pub fn write_i16(&mut self, n: i16) { self.buf.extend_from_slice(&n.to_le_bytes()); }"@,
        "    pub fn write_u32(&mut self, n: u32) { self.buf.extend_from_slice(&n.to_le_bytes()); }"@,
        "    pub fn write_i32(&mut self, n: i32) { self.buf.extend_from_slice(&n.to_le_bytes()); }"@,
        "    pub fn write_u64(&mut self, n: u64) { self.buf.extend_from_slice(&n.to_le_bytes()); }"@,
        "    pub fn write_i64(&mut self, n: i64) { self.buf.extend_from_slice(&n.to_le_bytes()); }"@,
        "    pub fn write_f32(&mut self, n: f32) { self.buf.extend_from_slice(&n.to_le_bytes()); }"@,
        "    pub fn write_f64(&mut self, n: f64) { self.buf.extend_from_slice(&n.to_le_bytes()); }"@,
        "    pub fn write_bool(&mut self, b: bool) { self.buf.push(if b { 1 } else { 0 }); }"@,
        "    pub fn write_str(&mut self, s: &str) {"@,
        "        let bytes = s.as_bytes();"@,
        "        self.write_u32(bytes.len() as u32);"@,
        "        self.buf.extend_from_slice(bytes);"@,
        "    }"@,
        "    pub fn write_bytes(&mut self, data: &[u8]) {"@,
        "        self.write_u32(data.len() as u32);"@,
        "        self.buf.extend_from_slice(data);"@,
        "    }"@,
        "    pub fn write_raw(&mut self, data: &[u8]) {"@,
        "        self.buf.extend_from_slice(data);"@,
        "    }"@,
        "    pub fn into_bytes(self) -> Vec<u8> { self.buf }"@,
        "}"@,
        Seq::<char>::empty(),
    ]);
    proof {
        reveal(rs_writer);
    }
    assert(cb@ =~= start + rs_writer());
}

/// The shared Rust little-endian binary reader.
#[verifier::opaque]
pub open spec fn rs_reader() -> Seq<Seq<char>> {
    seq![
        "/// Little-endian binary deserializer for the afast wire protocol."@,
        "pub struct BinaryReader<'a> {"@,
        "    data: &'a [u8],"@,
        "    offset: usize,"@,
        "}"@,
        Seq::<char>::empty(),
        "impl<'a> BinaryReader<'a> {"@,
        "    pub fn new(data: &'a [u8]) -> Self { Self { data, offset: 0 } }"@,
        "    pub fn read_u8(&mut self) -> u8 { let v = self.data[self.offset]; self.offset += 1; v }"@,
        "    pub fn read_i8(&mut self) -> i8 { self.read_u8() as i8 }"@,
        "    pub fn read_u16(&mut self) -> u16 {"@,
        "        let v = u16::from_le_bytes([self.data[self.offset], self.data[self.offset + 1]]);"@,
        "        self.offset += 2; v"@,
        "    }"@,
        "    pub fn read_i16(&mut self) -> i16 { self.read_u16() as i16 }"@,
        "    pub fn read_u32(&mut self) -> u32 {"@,
        "        let v = u32::from_le_bytes(["@,
        "            self.data[self.offset], self.data[self.offset + 1],"@,
        "            self.data[self.offset + 2], self.data[self.offset + 3],"@,
        "        ]);"@,
        "        self.offset += 4; v"@,
        "    }"@,
        "    pub fn read_i32(&mut self) -> i32 { self.read_u32() as i32 }"@,
        "    pub fn read_u64(&mut self) -> u64 {"@,
        "        let lo = self.read_u32() as u64;"@,
        "        let hi = self.read_u32() as u64;"@,
        "        (hi << 32) | lo"@,
        "    }"@,
        "    pub fn read_i64(&mut self) -> i64 { self.read_u64() as i64 }"@,
        "    pub fn read_f32(&mut self) -> f32 {"@,
        "        let mut bytes = [0u8; 4];"@,
        "        bytes.copy_from_slice(&self.data[self.offset..self.offset + 4]);"@,
        "        self.offset += 4;"@,
        "        f32::from_le_bytes(bytes)"@,
        "    }"@,
        "    pub fn read_f64(&mut self) -> f64 {"@,
        "        let mut bytes = [0u8; 8];"@,
        "        bytes.copy_from_slice(&self.data[self.offset..self.offset + 8]);"@,
        "        self.offset += 8;"@,
        "        f64::from_le_bytes(bytes)"@,
        "    }"@,
        "    pub fn read_bool(&mut self) -> bool { self.read_u8() == 1 }"@,
        "    pub fn read_str(&mut self) -> String {"@,
        "        let len = self.read_u32() as usize;"@,
        "        let s = String::from_utf8_lossy(&self.data[self.offset..self.offset + len]).into_owned();"@,
        "        self.offset += len;"@,
        "        s"@,
        "    }"@,
        "    pub fn read_bytes_len(&mut self, len: usize) -> Vec<u8> {"@,
        "        let v = self.data[self.offset..self.offset + len].to_vec();"@,
        "        self.offset += len;"@,
        "        v"@,
        "    }"@,
        "}"@,
        Seq::<char>::empty(),
    ]
}

fn push_rs_reader(cb: &mut CodeBuf)
    ensures
        final(cb)@ == old(cb)@ + rs_reader(),
{
    let ghost start = cb@;
    let ghost g3 = cb@;
    cb.l("/// Little-endian binary deserializer for the afast wire protocol.");
    cb.l("pub struct BinaryReader<'a> {");
    cb.l("    data: &'a [u8],");
    cb.l("    offset: usize,");
    cb.l("}");
    cb.b();
    cb.l("impl<'a> BinaryReader<'a> {");
    cb.l("    pub fn new(data: &'a [u8]) -> Self { Self { data, offset: 0 } }");
    cb.l("    pub fn read_u8(&mut self) -> u8 { let v = self.data[self.offset]; self.offset += 1; v }");
    cb.l("    pub fn read_i8(&mut self) -> i8 { self.read_u8() as i8 }");
    cb.l("    pub fn read_u16(&mut self) -> u16 {");
    cb.l("        let v = u16::from_le_bytes([self.data[self.offset], self.data[self.offset + 1]]);");
    cb.l("        self.offset += 2; v");
    cb.l("    }");
    cb.l("    pub fn read_i16(&mut self) -> i16 { self.read_u16() as i16 }");
    cb.l("    pub fn read_u32(&mut self) -> u32 {");
    cb.l("        let v = u32::from_le_bytes([");
    cb.l("            self.data[self.offset], self.data[self.offset + 1],");
    cb.l("            self.data[self.offset + 2], self.data[self.offset + 3],");
    cb.l("        ]);");
    cb.l("        self.offset += 4; v");
    cb.l("    }");
    cb.l("    pub fn read_i32(&mut self) -> i32 { self.read_u32() as i32 }");
    cb.l("    pub fn read_u64(&mut self) -> u64 {");
    cb.l("        let lo = self.read_u32() as u64;");
    cb.l("        let hi = self.read_u32() as u64;");
    cb.l("        (hi << 32) | lo");
    cb.l("    }");
    cb.l("    pub fn read_i64(&mut self) -> i64 { self.read_u64() as i64 }");
    cb.l("    pub fn read_f32(&mut self) -> f32 {");
    cb.l("        let mut bytes = [0u8; 4];");
    cb.l("        bytes.copy_from_slice(&self.data[self.offset..self.offset + 4]);");
    cb.l("        self.offset += 4;");
    cb.l("        f32::from_le_bytes(bytes)");
    cb.l("    }");
    cb.l("    pub fn read_f64(&mut self) -> f64 {");
    cb.l("        let mut bytes = [0u8; 8];");
    cb.l("        bytes.copy_from_slice(&self.data[self.offset..self.offset + 8]);");
    cb.l("        self.offset += 8;");
    cb.l("        f64::from_le_bytes(bytes)");
    cb.l("    }");
    cb.l("    pub fn read_bool(&mut self) -> bool { self.read_u8() == 1 }");
    cb.l("    pub fn read_str(&mut self) -> String {");
    cb.l("        let len = self.read_u32() as usize;");
    cb.l("        let s = String::from_utf8_lossy(&self.data[self.offset..self.offset + len]).into_owned();");
    cb.l("        self.offset += len;");
    cb.l("        s");
    cb.l("    }");
    cb.l("    pub fn read_bytes_len(&mut self, len: usize) -> Vec<u8> {");
    cb.l("        let v = self.data[self.offset..self.offset + len].to_vec();");
    cb.l("        self.offset += len;");
    cb.l("        v");
    cb.l("    }");
    cb.l("}");
    cb.b();
    assert(cb@ =~= g3 + seq![
        "/// Little-endian binary deserializer for the afast wire protocol."@,
        "pub struct BinaryReader<'a> {"@,
        "    data: &'a [u8],"@,
        "    offset: usize,"@,
        "}"@,
        Seq::<char>::empty(),
        "impl<'a> BinaryReader<'a> {"@,
        "    pub fn new(data: &'a [u8]) -> Self { Self { data, offset: 0 } }"@,
        "    pub fn read_u8(&mut self) -> u8 { let v = self.data[self.offset]; self.offset += 1; v }"@,
        "    pub fn read_i8(&mut self) -> i8 { self.read_u8() as i8 }"@,
        "    pub fn read_u16(&mut self) -> u16 {"@,
        "        let v = u16::from_le_bytes([self.data[self.offset], self.data[self.offset + 1]]);"@,
        "        self.offset += 2; v"@,
        "    }"@,
        "    pub fn read_i16(&mut self) -> i16 { self.read_u16() as i16 }"@,
        "    pub fn read_u32(&mut self) -> u32 {"@,
        "        let v = u32::from_le_bytes(["@,
        "            self.data[self.offset], self.data[self.offset + 1],"@,
        "            self.data[self.offset + 2], self.data[self.offset + 3],"@,
        "        ]);"@,
        "        self.offset += 4; v"@,
        "    }"@,
        "    pub fn read_i32(&mut self) -> i32 { self.read_u32() as i32 }"@,
        "    pub fn read_u64(&mut self) -> u64 {"@,
        "        let lo = self.read_u32() as u64;"@,
        "        let hi = self.read_u32() as u64;"@,
        "        (hi << 32) | lo"@,
        "    }"@,
        "    pub fn read_i64(&mut self) -> i64 { self.read_u64() as i64 }"@,
        "    pub fn read_f32(&mut self) -> f32 {"@,
        "        let mut bytes = [0u8; 4];"@,
        "        bytes.copy_from_slice(&self.data[self.offset..self.offset + 4]);"@,
        "        self.offset += 4;"@,
        "        f32::from_le_bytes(bytes)"@,
        "    }"@,
        "    pub fn read_f64(&mut self) -> f64 {"@,
        "        let mut bytes = [0u8; 8];"@,
        "        bytes.copy_from_slice(&self.data[self.offset..self.offset + 8]);"@,
        "        self.offset += 8;"@,
        "        f64::from_le_bytes(bytes)"@,
        "    }"@,
        "    pub fn read_bool(&mut self) -> bool { self.read_u8() == 1 }"@,
        "    pub fn read_str(&mut self) -> String {"@,
        "        let len = self.read_u32() as usize;"@,
        "        let s = String::from_utf8_lossy(&self.data[self.offset..self.offset + len]).into_owned();"@,
        "        self.offset += len;"@,
        "        s"@,
        "    }"@,
        "    pub fn read_bytes_len(&mut self, len: usize) -> Vec<u8> {"@,
        "        let v = self.data[self.offset..self.offset + len].to_vec();"@,
        "        self.offset += len;"@,
        "        v"@,
        "    }"@,
        "}"@,
        Seq::<char>::empty(),
    ]);
    proof {
        reveal(rs_reader);
    }
    assert(cb@ =~= start + rs_reader());
}

/// The shared Rust error types: client errors and server errors.
#[verifier::opaque]
pub open spec fn rs_errors() -> Seq<Seq<char>> {
    seq![
        "/// Error type for afast client operations."@,
        "#[derive(Debug)]"@,
        "pub enum AfastError {"@,
        "    Validation { code: i64, field: String, message: String },"@,
        "    Network(String),"@,
        "    Decode(String),"@,
        "}"@,
        Seq::<char>::empty(),
        "impl std::fmt::Display for AfastError {"@,
        "    fn fmt(&self, f: &mut std::fmt::Formatter<'_>) -> std::fmt::Result {"@,
        "        match self {"@,
        "            AfastError::Validation { code, field, message } => {"@,
        "                write!(f, \"AfastError({}): {} on field '{}'\", code, message, field)"@,
        "            }"@,
        "            AfastError::Network(msg) => write!(f, \"Network error: {}\", msg),"@,
        "            AfastError::Decode(msg) => write!(f, \"Decode error: {}\", msg),"@,
        "        }"@,
        "    }"@,
        "}"@,
        Seq::<char>::empty(),
        "impl std::error::Error for AfastError {}"@,
        Seq::<char>::empty(),
        "/// Server-side error with code and message."@,
        "#[derive(Debug)]"@,
        "pub struct AfError {"@,
        "    pub code: i64,"@,
        "    pub message: String,"@,
        "}"@,
        Seq::<char>::empty(),
        "impl std::fmt::Display for AfError {"@,
        "    fn fmt(&self, f: &mut std::fmt::Formatter<'_>) -> std::fmt::Result {"@,
        "        write!(f, \"AfError({}): {}\", self.code, self.message)"@,
        "    }"@,
        "}"@,
        Seq::<char>::empty(),
        "impl std::error::Error for AfError {}"@,
        Seq::<char>::empty(),
    ]
}

fn push_rs_errors(cb: &mut CodeBuf)
    ensures
        final(cb)@ == old(cb)@ + rs_errors(),
{
    let ghost start = cb@;
    let ghost g4 = cb@;
    cb.l("/// Error type for afast client operations.");
    cb.l("#[derive(Debug)]");
    cb.l("pub enum AfastError {");
    cb.l("    Validation { code: i64, field: String, message: String },");
    cb.l("    Network(String),");
    cb.l("    Decode(String),");
    cb.l("}");
    cb.b();
    cb.l("impl std::fmt::Display for AfastError {");
    cb.l("    fn fmt(&self, f: &mut std::fmt::Formatter<'_>) -> std::fmt::Result {");
    cb.l("        match self {");
    cb.l("            AfastError::Validation { code, field, message } => {");
    cb.l("                write!(f, \"AfastError({}): {} on field '{}'\", code, message, field)");
    cb.l("            }");
    cb.l("            AfastError::Network(msg) => write!(f, \"Network error: {}\", msg),");
    cb.l("            AfastError::Decode(msg) => write!(f, \"Decode error: {}\", msg),");
    cb.l("        }");
    cb.l("    }");
    cb.l("}");
    cb.b();
    cb.l("impl std::error::Error for AfastError {}");
    cb.b();
    cb.l("/// Server-side error with code and message.");
    cb.l("#[derive(Debug)]");
    cb.l("pub struct AfError {");
    cb.l("    pub code: i64,");
    cb.l("    pub message: String,");
    cb.l("}");
    cb.b();
    cb.l("impl std::fmt::Display for AfError {");
    cb.l("    fn fmt(&self, f: &mut std::fmt::Formatter<'_>) -> std::fmt::Result {");
    cb.l("        write!(f, \"AfError({}): {}\", self.code, self.message)");
    cb.l("    }");
    cb.l("}");
    cb.b();
    cb.l("impl std::error::Error for AfError {}");
    cb.b();
    assert(cb@ =~= g4 + seq![
        "/// Error type for afast client operations."@,
        "#[derive(Debug)]"@,
        "pub enum AfastError {"@,
        "    Validation { code: i64, field: String, message: String },"@,
        "    Network(String),"@,
        "    Decode(String),"@,
        "}"@,
        Seq::<char>::empty(),
        "impl std::fmt::Display for AfastError {"@,
        "    fn fmt(&self, f: &mut std::fmt::Formatter<'_>) -> std::fmt::Result {"@,
        "        match self {"@,
        "            AfastError::Validation { code, field, message } => {"@,
        "                write!(f, \"AfastError({}): {} on field '{}'\", code, message, field)"@,
        "            }"@,
        "            AfastError::Network(msg) => write!(f, \"Network error: {}\", msg),"@,
        "            AfastError::Decode(msg) => write!(f, \"Decode error: {}\", msg),"@,
        "        }"@,
        "    }"@,
        "}"@,
        Seq::<char>::empty(),
        "impl std::error::Error for AfastError {}"@,
        Seq::<char>::empty(),
        "/// Server-side error with code and message."@,
        "#[derive(Debug)]"@,
        "pub struct AfError {"@,
        "    pub code: i64,"@,
        "    pub message: String,"@,
        "}"@,
        Seq::<char>::empty(),
        "impl std::fmt::Display for AfError {"@,
        "    fn fmt(&self, f: &mut std::fmt::Formatter<'_>) -> std::fmt::Result {"@,
        "        write!(f, \"AfError({}): {}\", self.code, self.message)"@,
        "    }"@,
        "}"@,
        Seq::<char>::empty(),
        "impl std::error::Error for AfError {}"@,
        Seq::<char>::empty(),
    ]);
    proof {
        reveal(rs_errors);
    }
    assert(cb@ =~= start + rs_errors());
}

/// The handle of a long-connection session.
#[verifier::opaque]
pub open spec fn rs_socket() -> Seq<Seq<char>> {
    seq![
        "/// Handle for a long-connection (WebSocket/TCP) session."@,
        "#[derive(Debug)]"@,
        "pub struct AfastSocket {"@,
        "    pub conn_id: u32,"@,
        "}"@,
        Seq::<char>::empty(),
    ]
}

fn push_rs_socket(cb: &mut CodeBuf)
    ensures
        final(cb)@ == old(cb)@ + rs_socket(),
{
    let ghost start = cb@;
    let ghost g5 = cb@;
    cb.l("/// Handle for a long-connection (WebSocket/TCP) session.");
    cb.l("#[derive(Debug)]");
    cb.l("pub struct AfastSocket {");
    cb.l("    pub conn_id: u32,");
    cb.l("}");
    cb.b();
    assert(cb@ =~= g5 + seq![
        "/// Handle for a long-connection (WebSocket/TCP) session."@,
        "#[derive(Debug)]"@,
        "pub struct AfastSocket {"@,
        "    pub conn_id: u32,"@,
        "}"@,
        Seq::<char>::empty(),
    ]);
    proof {
        reveal(rs_socket);
    }
    assert(cb@ =~= start + rs_socket());
}

/// The Custom types of the named services, declared once each, service
/// after service.
pub open spec fn services_customs(svcs: Seq<Service>, st: Emission) -> Emission
    decreases svcs.len(),
{
    if svcs.len() == 0 {
        st
    } else {
        let st1 = services_customs(svcs.drop_last(), st);
        let s = svcs.last();
        if s.name@.len() > 0 {
            shared_exports(s.handlers@, "Custom"@, st1)
        } else {
            st1
        }
    }
}

/// The block of Custom type declarations, followed by a blank line, when
/// some named service has a Custom parameter.
pub open spec fn custom_block(svcs: Seq<Service>) -> Seq<Seq<char>> {
    if any_shared(svcs, "Custom"@) {
        services_customs(svcs, (Seq::empty(), Seq::empty())).0.push(Seq::empty())
    } else {
        Seq::empty()
    }
}

/// The shared Rust module for `svcs`.
pub open spec fn common_rs_text(svcs: Seq<Service>) -> Seq<char> {
    build_lines(
        rs_common_head() + rs_writer() + rs_reader() + rs_errors() + custom_block(svcs) + rs_socket(),
    )
}

fn push_custom_block(cb: &mut CodeBuf, services: &Vec<Service>)
    requires
        services_ok(services@),
    ensures
        final(cb)@ == old(cb)@ + custom_block(services@),
{
    if any_shared_exec(services, "Custom") {
        let mut local = CodeBuf::new();
        let mut emitted: Vec<String> = Vec::new();
        let path: Vec<String> = Vec::new();
        let mut i: usize = 0;
        proof {
            assert(views(emitted@) =~= Seq::<Seq<char>>::empty());
        }
        while i < services.len()
            invariant
                i <= services@.len(),
                services_ok(services@),
                (local@, views(emitted@)) == services_customs(
                    services@.subrange(0, i as int),
                    (Seq::empty(), Seq::empty()),
                ),
            decreases services@.len() - i,
        {
            let s = &services[i];
            proof {
                assert(services@.subrange(0, i + 1).drop_last() =~= services@.subrange(0, i as int));
            }
            if s.name.unicode_len() > 0 {
                assert(tree_ok(services@[i as int].handlers@));
                collect_custom_type_exports_rs(&s.handlers, &path, &mut emitted, &mut local);
            }
            i = i + 1;
        }
        assert(services@.subrange(0, services@.len() as int) =~= services@);
        local.b();
        cb.extend(local);
    } else {
        assert(cb@ =~= old(cb)@ + Seq::<Seq<char>>::empty());
    }
}

/// Generates the shared Rust module: the binary reader and writer, the
/// error types, the Custom types of the named services and the socket
/// handle. The module is the same for the blocking and the async client.
pub fn generate_common_rs(services: &Vec<Service>, _is_async: bool) -> (r: String)
    requires
        services_ok(services@),
    ensures
        r@ == common_rs_text(services@),
{
    let mut cb = CodeBuf::new();
    push_rs_common_head(&mut cb);
    push_rs_writer(&mut cb);
    push_rs_reader(&mut cb);
    push_rs_errors(&mut cb);
    push_custom_block(&mut cb, services);
    push_rs_socket(&mut cb);
    assert(cb@ =~= rs_common_head() + rs_writer() + rs_reader() + rs_errors() + custom_block(services@)
        + rs_socket());
    cb.build()
}

} // verus!
