//! A service's Rust client module: its types, the client struct with its
//! transport, and the structs that group its handlers.

use vstd::prelude::*;
use crate::rs::streams::{push_rs_streams, rs_streams};
use crate::buf::{build_lines, CodeBuf};
use crate::collect::{collect_customs, customs_of};
use crate::cs::common::services_ok;
use crate::cs::exports::exports_ok;
use crate::model::{AFast, Handler, RsCallType, Service};
use crate::naming::{handler_prefix, handler_prefix_of, pascal, snake, to_pascal_case, to_snake_case};
use crate::rs::common::{common_rs_text, generate_common_rs};
use crate::rs::exports::{collect_type_exports_rs, tree_exports};
use crate::rs::methods::{handler_method_rs, rs_meta_ok, rs_method_text};
use crate::text::{cat2, cat3, cat4, cat5, cat6, cat7, join, join_seq, owned, trim_start_char, trim_start_matches, views};

verus! {

/// The header of a service's Rust module: the imports of the blocking or the async runtime.
#[verifier::opaque]
pub open spec fn rs_svc_head(is_async: bool) -> Seq<Seq<char>> {
    seq![
        "// Auto-generated by afast. DO NOT EDIT."@,
        "#![allow(dead_code, unused_mut, clippy::needless_borrow)]"@,
        Seq::<char>::empty(),
    ] + (if is_async {
        seq![
            "use tokio::io::{AsyncReadExt, AsyncWriteExt};"@,
            "use tokio::net::TcpStream;"@,
            "use tokio::sync::Mutex;"@,
        ]
    } else {
        seq![
            "use std::io::{Read, Write};"@,
            "use std::net::TcpStream;"@,
            "use std::sync::Mutex;"@,
        ]
    }) + seq![
        "use std::sync::Arc;"@,
        "use super::common::*;"@,
        Seq::<char>::empty(),
    ]
}

fn push_rs_svc_head(cb: &mut CodeBuf, is_async: bool)
    ensures
        final(cb)@ == old(cb)@ + rs_svc_head(is_async),
{
    let ghost start = cb@;
    let ghost g1 = cb@;
    cb.l("// Auto-generated by afast. DO NOT EDIT.");
    cb.l("#![allow(dead_code, unused_mut, clippy::needless_borrow)]");
    cb.b();
    assert(cb@ =~= g1 + seq![
        "// Auto-generated by afast. DO NOT EDIT."@,
        "#![allow(dead_code, unused_mut, clippy::needless_borrow)]"@,
        Seq::<char>::empty(),
    ]);
    let ghost g2 = cb@;
    if is_async {
        let ghost g3 = cb@;
        cb.l("use tokio::io::{AsyncReadExt, AsyncWriteExt};");
        cb.l("use tokio::net::TcpStream;");
        cb.l("use tokio::sync::Mutex;");
        assert(cb@ =~= g3 + seq![
            "use tokio::io::{AsyncReadExt, AsyncWriteExt};"@,
            "use tokio::net::TcpStream;"@,
            "use tokio::sync::Mutex;"@,
        ]);
        assert(cb@ =~= g2 + seq![
            "use tokio::io::{AsyncReadExt, AsyncWriteExt};"@,
            "use tokio::net::TcpStream;"@,
            "use tokio::sync::Mutex;"@,
        ]);
    } else {
        let ghost g4 = cb@;
        cb.l("use std::io::{Read, Write};");
        cb.l("use std::net::TcpStream;");
        cb.l("use std::sync::Mutex;");
        assert(cb@ =~= g4 + seq![
            "use std::io::{Read, Write};"@,
            "use std::net::TcpStream;"@,
            "use std::sync::Mutex;"@,
        ]);
        assert(cb@ =~= g2 + seq![
            "use std::io::{Read, Write};"@,
            "use std::net::TcpStream;"@,
            "use std::sync::Mutex;"@,
        ]);
    }
    assert(cb@ =~= g2 + (if is_async {
        seq![
            "use tokio::io::{AsyncReadExt, AsyncWriteExt};"@,
            "use tokio::net::TcpStream;"@,
            "use tokio::sync::Mutex;"@,
        ]
    } else {
        seq![
            "use std::io::{Read, Write};"@,
            "use std::net::TcpStream;"@,
            "use std::sync::Mutex;"@,
        ]
    }));
    let ghost g5 = cb@;
    cb.l("use std::sync::Arc;");
    cb.l("use super::common::*;");
    cb.b();
    assert(cb@ =~= g5 + seq![
        "use std::sync::Arc;"@,
        "use super::common::*;"@,
        Seq::<char>::empty(),
    ]);
    proof {
        reveal(rs_svc_head);
    }
    assert(cb@ =~= start + rs_svc_head(is_async));
}

/// The client struct of a service.
#[verifier::opaque]
pub open spec fn rs_client_struct(svc_name: Seq<char>, has_desc: bool, desc: Seq<char>, class: Seq<char>, has_customs: bool) -> Seq<Seq<char>> {
    seq![
        "/// Client for the `"@ + svc_name + "` service."@,
    ] + (if has_desc {
        seq![
            "/// "@ + desc,
        ]
    } else {
        Seq::<Seq<char>>::empty()
    }) + seq![
        "pub struct "@ + class + "Client {"@,
        "    addr: String,"@,
        "    stream: Arc<Mutex<TcpStream>>,"@,
    ] + (if has_customs {
        seq![
            "    #[allow(clippy::type_complexity)]"@,
            "    pub customs: Vec<Box<dyn Fn() -> Result<Box<dyn std::any::Any>, Box<dyn std::error::Error>> + Send + Sync>>,"@,
        ]
    } else {
        Seq::<Seq<char>>::empty()
    }) + seq![
        "}"@,
        Seq::<char>::empty(),
    ]
}

fn push_rs_client_struct(cb: &mut CodeBuf, svc_name: &str, has_desc: bool, desc: &str, class: &str, has_customs: bool)
    ensures
        final(cb)@ == old(cb)@ + rs_client_struct(svc_name@, has_desc, desc@, class@, has_customs),
{
    let ghost start = cb@;
    let ghost g6 = cb@;
    cb.push(cat3("/// Client for the `", svc_name, "` service."));
    assert(cb@ =~= g6 + seq![
        "/// Client for the `"@ + svc_name@ + "` service."@,
    ]);
    let ghost g7 = cb@;
    if has_desc {
        let ghost g8 = cb@;
        cb.push(cat2("/// ", desc));
        assert(cb@ =~= g8 + seq![
            "/// "@ + desc@,
        ]);
        assert(cb@ =~= g7 + seq![
            "/// "@ + desc@,
        ]);
    } else {
        assert(cb@ =~= g7 + Seq::<Seq<char>>::empty());
    }
    assert(cb@ =~= g7 + (if has_desc {
        seq![
            "/// "@ + desc@,
        ]
    } else {
        Seq::<Seq<char>>::empty()
    }));
    let ghost g9 = cb@;
    cb.push(cat3("pub struct ", class, "Client {"));
    cb.l("    addr: String,");
    cb.l("    stream: Arc<Mutex<TcpStream>>,");
    assert(cb@ =~= g9 + seq![
        "pub struct "@ + class@ + "Client {"@,
        "    addr: String,"@,
        "    stream: Arc<Mutex<TcpStream>>,"@,
    ]);
    let ghost g10 = cb@;
    if has_customs {
        let ghost g11 = cb@;
        cb.l("    #[allow(clippy::type_complexity)]");
        cb.l("    pub customs: Vec<Box<dyn Fn() -> Result<Box<dyn std::any::Any>, Box<dyn std::error::Error>> + Send + Sync>>,");
        assert(cb@ =~= g11 + seq![
            "    #[allow(clippy::type_complexity)]"@,
            "    pub customs: Vec<Box<dyn Fn() -> Result<Box<dyn std::any::Any>, Box<dyn std::error::Error>> + Send + Sync>>,"@,
        ]);
        assert(cb@ =~= g10 + seq![
            "    #[allow(clippy::type_complexity)]"@,
            "    pub customs: Vec<Box<dyn Fn() -> Result<Box<dyn std::any::Any>, Box<dyn std::error::Error>> + Send + Sync>>,"@,
        ]);
    } else {
        assert(cb@ =~= g10 + Seq::<Seq<char>>::empty());
    }
    assert(cb@ =~= g10 + (if has_customs {
        seq![
            "    #[allow(clippy::type_complexity)]"@,
            "    pub customs: Vec<Box<dyn Fn() -> Result<Box<dyn std::any::Any>, Box<dyn std::error::Error>> + Send + Sync>>,"@,
        ]
    } else {
        Seq::<Seq<char>>::empty()
    }));
    let ghost g12 = cb@;
    cb.l("}");
    cb.b();
    assert(cb@ =~= g12 + seq![
        "}"@,
        Seq::<char>::empty(),
    ]);
    proof {
        reveal(rs_client_struct);
    }
    assert(cb@ =~= start + rs_client_struct(svc_name@, has_desc, desc@, class@, has_customs));
}

/// The first impl block of a service client: its constructor.
#[verifier::opaque]
pub open spec fn rs_client_new(is_async: bool, svc_name: Seq<char>, class: Seq<char>, has_customs: bool) -> Seq<Seq<char>> {
    seq![
        "impl "@ + class + "Client {"@,
    ] + (if is_async {
        seq![
            "    /// Creates a new `"@ + svc_name + "Client` connected to the given address."@,
            "    pub async fn new(addr: &str) -> Result<Self, AfastError> {"@,
            "        let stream = TcpStream::connect(addr).await"@,
            "            .map_err(|e| AfastError::Network(e.to_string()))?;"@,
            "        Ok(Self {"@,
            "            addr: addr.to_string(),"@,
            "            stream: Arc::new(Mutex::new(stream)),"@,
        ] + (if has_customs {
            seq![
                "            customs: Vec::new(),"@,
            ]
        } else {
            Seq::<Seq<char>>::empty()
        }) + seq![
            "        })"@,
            "    }"@,
        ]
    } else {
        seq![
            "    /// Creates a new `"@ + svc_name + "Client` connected to the given address."@,
            "    pub fn new(addr: &str) -> Result<Self, AfastError> {"@,
            "        let stream = TcpStream::connect(addr)"@,
            "            .map_err(|e| AfastError::Network(e.to_string()))?;"@,
            "        Ok(Self {"@,
            "            addr: addr.to_string(),"@,
            "            stream: Arc::new(Mutex::new(stream)),"@,
        ] + (if has_customs {
            seq![
                "            customs: Vec::new(),"@,
            ]
        } else {
            Seq::<Seq<char>>::empty()
        }) + seq![
            "        })"@,
            "    }"@,
        ]
    }) + seq![
        Seq::<char>::empty(),
        "}"@,
        Seq::<char>::empty(),
    ]
}

fn push_rs_client_new(cb: &mut CodeBuf, is_async: bool, svc_name: &str, class: &str, has_customs: bool)
    ensures
        final(cb)@ == old(cb)@ + rs_client_new(is_async, svc_name@, class@, has_customs),
{
    let ghost start = cb@;
    let ghost g13 = cb@;
    cb.push(cat3("impl ", class, "Client {"));
    assert(cb@ =~= g13 + seq![
        "impl "@ + class@ + "Client {"@,
    ]);
    let ghost g14 = cb@;
    if is_async {
        let ghost g15 = cb@;
        cb.push(cat3("    /// Creates a new `", svc_name, "Client` connected to the given address."));
        cb.l("    pub async fn new(addr: &str) -> Result<Self, AfastError> {");
        cb.l("        let stream = TcpStream::connect(addr).await");
        cb.l("            .map_err(|e| AfastError::Network(e.to_string()))?;");
        cb.l("        Ok(Self {");
        cb.l("            addr: addr.to_string(),");
        cb.l("            stream: Arc::new(Mutex::new(stream)),");
        assert(cb@ =~= g15 + seq![
            "    /// Creates a new `"@ + svc_name@ + "Client` connected to the given address."@,
            "    pub async fn new(addr: &str) -> Result<Self, AfastError> {"@,
            "        let stream = TcpStream::connect(addr).await"@,
            "            .map_err(|e| AfastError::Network(e.to_string()))?;"@,
            "        Ok(Self {"@,
            "            addr: addr.to_string(),"@,
            "            stream: Arc::new(Mutex::new(stream)),"@,
        ]);
        let ghost g16 = cb@;
        if has_customs {
            let ghost g17 = cb@;
            cb.l("            customs: Vec::new(),");
            assert(cb@ =~= g17 + seq![
                "            customs: Vec::new(),"@,
            ]);
            assert(cb@ =~= g16 + seq![
                "            customs: Vec::new(),"@,
            ]);
        } else {
            assert(cb@ =~= g16 + Seq::<Seq<char>>::empty());
        }
        assert(cb@ =~= g16 + (if has_customs {
            seq![
                "            customs: Vec::new(),"@,
            ]
        } else {
            Seq::<Seq<char>>::empty()
        }));
        let ghost g18 = cb@;
        cb.l("        })");
        cb.l("    }");
        assert(cb@ =~= g18 + seq![
            "        })"@,
            "    }"@,
        ]);
        assert(cb@ =~= g14 + seq![
            "    /// Creates a new `"@ + svc_name@ + "Client` connected to the given address."@,
            "    pub async fn new(addr: &str) -> Result<Self, AfastError> {"@,
            "        let stream = TcpStream::connect(addr).await"@,
            "            .map_err(|e| AfastError::Network(e.to_string()))?;"@,
            "        Ok(Self {"@,
            "            addr: addr.to_string(),"@,
            "            stream: Arc::new(Mutex::new(stream)),"@,
        ] + (if has_customs {
            seq![
                "            customs: Vec::new(),"@,
            ]
        } else {
            Seq::<Seq<char>>::empty()
        }) + seq![
            "        })"@,
            "    }"@,
        ]);
    } else {
        let ghost g19 = cb@;
        cb.push(cat3("    /// Creates a new `", svc_name, "Client` connected to the given address."));
        cb.l("    pub fn new(addr: &str) -> Result<Self, AfastError> {");
        cb.l("        let stream = TcpStream::connect(addr)");
        cb.l("            .map_err(|e| AfastError::Network(e.to_string()))?;");
        cb.l("        Ok(Self {");
        cb.l("            addr: addr.to_string(),");
        cb.l("            stream: Arc::new(Mutex::new(stream)),");
        assert(cb@ =~= g19 + seq![
            "    /// Creates a new `"@ + svc_name@ + "Client` connected to the given address."@,
            "    pub fn new(addr: &str) -> Result<Self, AfastError> {"@,
            "        let stream = TcpStream::connect(addr)"@,
            "            .map_err(|e| AfastError::Network(e.to_string()))?;"@,
            "        Ok(Self {"@,
            "            addr: addr.to_string(),"@,
            "            stream: Arc::new(Mutex::new(stream)),"@,
        ]);
        let ghost g20 = cb@;
        if has_customs {
            let ghost g21 = cb@;
            cb.l("            customs: Vec::new(),");
            assert(cb@ =~= g21 + seq![
                "            customs: Vec::new(),"@,
            ]);
            assert(cb@ =~= g20 + seq![
                "            customs: Vec::new(),"@,
            ]);
        } else {
            assert(cb@ =~= g20 + Seq::<Seq<char>>::empty());
        }
        assert(cb@ =~= g20 + (if has_customs {
            seq![
                "            customs: Vec::new(),"@,
            ]
        } else {
            Seq::<Seq<char>>::empty()
        }));
        let ghost g22 = cb@;
        cb.l("        })");
        cb.l("    }");
        assert(cb@ =~= g22 + seq![
            "        })"@,
            "    }"@,
        ]);
        assert(cb@ =~= g14 + seq![
            "    /// Creates a new `"@ + svc_name@ + "Client` connected to the given address."@,
            "    pub fn new(addr: &str) -> Result<Self, AfastError> {"@,
            "        let stream = TcpStream::connect(addr)"@,
            "            .map_err(|e| AfastError::Network(e.to_string()))?;"@,
            "        Ok(Self {"@,
            "            addr: addr.to_string(),"@,
            "            stream: Arc::new(Mutex::new(stream)),"@,
        ] + (if has_customs {
            seq![
                "            customs: Vec::new(),"@,
            ]
        } else {
            Seq::<Seq<char>>::empty()
        }) + seq![
            "        })"@,
            "    }"@,
        ]);
    }
    assert(cb@ =~= g14 + (if is_async {
        seq![
            "    /// Creates a new `"@ + svc_name@ + "Client` connected to the given address."@,
            "    pub async fn new(addr: &str) -> Result<Self, AfastError> {"@,
            "        let stream = TcpStream::connect(addr).await"@,
            "            .map_err(|e| AfastError::Network(e.to_string()))?;"@,
            "        Ok(Self {"@,
            "            addr: addr.to_string(),"@,
            "            stream: Arc::new(Mutex::new(stream)),"@,
        ] + (if has_customs {
            seq![
                "            customs: Vec::new(),"@,
            ]
        } else {
            Seq::<Seq<char>>::empty()
        }) + seq![
            "        })"@,
            "    }"@,
        ]
    } else {
        seq![
            "    /// Creates a new `"@ + svc_name@ + "Client` connected to the given address."@,
            "    pub fn new(addr: &str) -> Result<Self, AfastError> {"@,
            "        let stream = TcpStream::connect(addr)"@,
            "            .map_err(|e| AfastError::Network(e.to_string()))?;"@,
            "        Ok(Self {"@,
            "            addr: addr.to_string(),"@,
            "            stream: Arc::new(Mutex::new(stream)),"@,
        ] + (if has_customs {
            seq![
                "            customs: Vec::new(),"@,
            ]
        } else {
            Seq::<Seq<char>>::empty()
        }) + seq![
            "        })"@,
            "    }"@,
        ]
    }));
    let ghost g23 = cb@;
    cb.b();
    cb.l("}");
    cb.b();
    assert(cb@ =~= g23 + seq![
        Seq::<char>::empty(),
        "}"@,
        Seq::<char>::empty(),
    ]);
    proof {
        reveal(rs_client_new);
    }
    assert(cb@ =~= start + rs_client_new(is_async, svc_name@, class@, has_customs));
}

/// The function sending one request frame and reading its reply, shared by the client and its groups.
#[verifier::opaque]
pub open spec fn rs_call_tcp(is_async: bool) -> Seq<Seq<char>> {
    (if is_async {
        seq![
            "async fn _call_tcp(stream: &Arc<Mutex<TcpStream>>, handler_id: u32, payload: Vec<u8>) -> Result<Vec<u8>, AfastError> {"@,
            "    let mut stream = stream.lock().await;"@,
            "    let req_id: i32 = 1;"@,
            "    let mut frame = BinaryWriter::new();"@,
            "    frame.write_i32(req_id);"@,
            "    frame.write_u32(handler_id);"@,
            "    frame.write_u32(payload.len() as u32);"@,
            "    frame.write_raw(&payload);"@,
            "    let frame_bytes = frame.into_bytes();"@,
            "    let mut envelope = BinaryWriter::new();"@,
            "    envelope.write_u32(frame_bytes.len() as u32);"@,
            "    envelope.write_raw(&frame_bytes);"@,
            "    let data = envelope.into_bytes();"@,
            "    stream.write_all(&data).await"@,
            "        .map_err(|e| AfastError::Network(e.to_string()))?;"@,
            "    stream.flush().await"@,
            "        .map_err(|e| AfastError::Network(e.to_string()))?;"@,
            "    let mut len_buf = [0u8; 4];"@,
            "    stream.read_exact(&mut len_buf).await"@,
            "        .map_err(|e| AfastError::Network(e.to_string()))?;"@,
            "    let resp_len = u32::from_le_bytes(len_buf) as usize;"@,
            "    let mut resp_buf = vec![0u8; resp_len];"@,
            "    stream.read_exact(&mut resp_buf).await"@,
            "        .map_err(|e| AfastError::Network(e.to_string()))?;"@,
            "    if resp_buf.len() < 4 + 4 + 1 + 8 {"@,
            "        return Err(AfastError::Decode(\"response too short\".into()));"@,
            "    }"@,
            "    let status = resp_buf[8];"@,
            "    if status == 1 {"@,
            "        let code = i64::from_le_bytes(resp_buf[9..17].try_into().expect(\"resp_buf len checked\"));"@,
            "        let msg = String::from_utf8_lossy(&resp_buf[17..]).into_owned();"@,
            "        return Err(AfastError::Network(format!(\"AfError({}): {}\", code, msg)));"@,
            "    }"@,
            "    Ok(resp_buf[17..].to_vec())"@,
            "}"@,
        ]
    } else {
        seq![
            "fn _call_tcp(stream: &Arc<Mutex<TcpStream>>, handler_id: u32, payload: Vec<u8>) -> Result<Vec<u8>, AfastError> {"@,
            "    let mut stream = stream.lock().expect(\"mutex poisoned\");"@,
            "    let req_id: i32 = 1;"@,
            "    let mut frame = BinaryWriter::new();"@,
            "    frame.write_i32(req_id);"@,
            "    frame.write_u32(handler_id);"@,
            "    frame.write_u32(payload.len() as u32);"@,
            "    frame.write_raw(&payload);"@,
            "    let frame_bytes = frame.into_bytes();"@,
            "    let mut envelope = BinaryWriter::new();"@,
            "    envelope.write_u32(frame_bytes.len() as u32);"@,
            "    envelope.write_raw(&frame_bytes);"@,
            "    let data = envelope.into_bytes();"@,
            "    stream.write_all(&data)"@,
            "        .map_err(|e| AfastError::Network(e.to_string()))?;"@,
            "    stream.flush()"@,
            "        .map_err(|e| AfastError::Network(e.to_string()))?;"@,
            "    let mut len_buf = [0u8; 4];"@,
            "    stream.read_exact(&mut len_buf)"@,
            "        .map_err(|e| AfastError::Network(e.to_string()))?;"@,
            "    let resp_len = u32::from_le_bytes(len_buf) as usize;"@,
            "    let mut resp_buf = vec![0u8; resp_len];"@,
            "    stream.read_exact(&mut resp_buf)"@,
            "        .map_err(|e| AfastError::Network(e.to_string()))?;"@,
            "    if resp_buf.len() < 4 + 4 + 1 + 8 {"@,
            "        return Err(AfastError::Decode(\"response too short\".into()));"@,
            "    }"@,
            "    let status = resp_buf[8];"@,
            "    if status == 1 {"@,
            "        let code = i64::from_le_bytes(resp_buf[9..17].try_into().expect(\"resp_buf len checked\"));"@,
            "        let msg = String::from_utf8_lossy(&resp_buf[17..]).into_owned();"@,
            "        return Err(AfastError::Network(format!(\"AfError({}): {}\", code, msg)));"@,
            "    }"@,
            "    Ok(resp_buf[17..].to_vec())"@,
            "}"@,
        ]
    }) + seq![
        Seq::<char>::empty(),
    ]
}

fn push_rs_call_tcp(cb: &mut CodeBuf, is_async: bool)
    ensures
        final(cb)@ == old(cb)@ + rs_call_tcp(is_async),
{
    let ghost start = cb@;
    let ghost g24 = cb@;
    if is_async {
        let ghost g25 = cb@;
        cb.l("async fn _call_tcp(stream: &Arc<Mutex<TcpStream>>, handler_id: u32, payload: Vec<u8>) -> Result<Vec<u8>, AfastError> {");
        cb.l("    let mut stream = stream.lock().await;");
        cb.l("    let req_id: i32 = 1;");
        cb.l("    let mut frame = BinaryWriter::new();");
        cb.l("    frame.write_i32(req_id);");
        cb.l("    frame.write_u32(handler_id);");
        cb.l("    frame.write_u32(payload.len() as u32);");
        cb.l("    frame.write_raw(&payload);");
        cb.l("    let frame_bytes = frame.into_bytes();");
        cb.l("    let mut envelope = BinaryWriter::new();");
        cb.l("    envelope.write_u32(frame_bytes.len() as u32);");
        cb.l("    envelope.write_raw(&frame_bytes);");
        cb.l("    let data = envelope.into_bytes();");
        cb.l("    stream.write_all(&data).await");
        cb.l("        .map_err(|e| AfastError::Network(e.to_string()))?;");
        cb.l("    stream.flush().await");
        cb.l("        .map_err(|e| AfastError::Network(e.to_string()))?;");
        cb.l("    let mut len_buf = [0u8; 4];");
        cb.l("    stream.read_exact(&mut len_buf).await");
        cb.l("        .map_err(|e| AfastError::Network(e.to_string()))?;");
        cb.l("    let resp_len = u32::from_le_bytes(len_buf) as usize;");
        cb.l("    let mut resp_buf = vec![0u8; resp_len];");
        cb.l("    stream.read_exact(&mut resp_buf).await");
        cb.l("        .map_err(|e| AfastError::Network(e.to_string()))?;");
        cb.l("    if resp_buf.len() < 4 + 4 + 1 + 8 {");
        cb.l("        return Err(AfastError::Decode(\"response too short\".into()));");
        cb.l("    }");
        cb.l("    let status = resp_buf[8];");
        cb.l("    if status == 1 {");
        cb.l("        let code = i64::from_le_bytes(resp_buf[9..17].try_into().expect(\"resp_buf len checked\"));");
        cb.l("        let msg = String::from_utf8_lossy(&resp_buf[17..]).into_owned();");
        cb.l("        return Err(AfastError::Network(format!(\"AfError({}): {}\", code, msg)));");
        cb.l("    }");
        cb.l("    Ok(resp_buf[17..].to_vec())");
        cb.l("}");
        assert(cb@ =~= g25 + seq![
            "async fn _call_tcp(stream: &Arc<Mutex<TcpStream>>, handler_id: u32, payload: Vec<u8>) -> Result<Vec<u8>, AfastError> {"@,
            "    let mut stream = stream.lock().await;"@,
            "    let req_id: i32 = 1;"@,
            "    let mut frame = BinaryWriter::new();"@,
            "    frame.write_i32(req_id);"@,
            "    frame.write_u32(handler_id);"@,
            "    frame.write_u32(payload.len() as u32);"@,
            "    frame.write_raw(&payload);"@,
            "    let frame_bytes = frame.into_bytes();"@,
            "    let mut envelope = BinaryWriter::new();"@,
            "    envelope.write_u32(frame_bytes.len() as u32);"@,
            "    envelope.write_raw(&frame_bytes);"@,
            "    let data = envelope.into_bytes();"@,
            "    stream.write_all(&data).await"@,
            "        .map_err(|e| AfastError::Network(e.to_string()))?;"@,
            "    stream.flush().await"@,
            "        .map_err(|e| AfastError::Network(e.to_string()))?;"@,
            "    let mut len_buf = [0u8; 4];"@,
            "    stream.read_exact(&mut len_buf).await"@,
            "        .map_err(|e| AfastError::Network(e.to_string()))?;"@,
            "    let resp_len = u32::from_le_bytes(len_buf) as usize;"@,
            "    let mut resp_buf = vec![0u8; resp_len];"@,
            "    stream.read_exact(&mut resp_buf).await"@,
            "        .map_err(|e| AfastError::Network(e.to_string()))?;"@,
            "    if resp_buf.len() < 4 + 4 + 1 + 8 {"@,
            "        return Err(AfastError::Decode(\"response too short\".into()));"@,
            "    }"@,
            "    let status = resp_buf[8];"@,
            "    if status == 1 {"@,
            "        let code = i64::from_le_bytes(resp_buf[9..17].try_into().expect(\"resp_buf len checked\"));"@,
            "        let msg = String::from_utf8_lossy(&resp_buf[17..]).into_owned();"@,
            "        return Err(AfastError::Network(format!(\"AfError({}): {}\", code, msg)));"@,
            "    }"@,
            "    Ok(resp_buf[17..].to_vec())"@,
            "}"@,
        ]);
        assert(cb@ =~= g24 + seq![
            "async fn _call_tcp(stream: &Arc<Mutex<TcpStream>>, handler_id: u32, payload: Vec<u8>) -> Result<Vec<u8>, AfastError> {"@,
            "    let mut stream = stream.lock().await;"@,
            "    let req_id: i32 = 1;"@,
            "    let mut frame = BinaryWriter::new();"@,
            "    frame.write_i32(req_id);"@,
            "    frame.write_u32(handler_id);"@,
            "    frame.write_u32(payload.len() as u32);"@,
            "    frame.write_raw(&payload);"@,
            "    let frame_bytes = frame.into_bytes();"@,
            "    let mut envelope = BinaryWriter::new();"@,
            "    envelope.write_u32(frame_bytes.len() as u32);"@,
            "    envelope.write_raw(&frame_bytes);"@,
            "    let data = envelope.into_bytes();"@,
            "    stream.write_all(&data).await"@,
            "        .map_err(|e| AfastError::Network(e.to_string()))?;"@,
            "    stream.flush().await"@,
            "        .map_err(|e| AfastError::Network(e.to_string()))?;"@,
            "    let mut len_buf = [0u8; 4];"@,
            "    stream.read_exact(&mut len_buf).await"@,
            "        .map_err(|e| AfastError::Network(e.to_string()))?;"@,
            "    let resp_len = u32::from_le_bytes(len_buf) as usize;"@,
            "    let mut resp_buf = vec![0u8; resp_len];"@,
            "    stream.read_exact(&mut resp_buf).await"@,
            "        .map_err(|e| AfastError::Network(e.to_string()))?;"@,
            "    if resp_buf.len() < 4 + 4 + 1 + 8 {"@,
            "        return Err(AfastError::Decode(\"response too short\".into()));"@,
            "    }"@,
            "    let status = resp_buf[8];"@,
            "    if status == 1 {"@,
            "        let code = i64::from_le_bytes(resp_buf[9..17].try_into().expect(\"resp_buf len checked\"));"@,
            "        let msg = String::from_utf8_lossy(&resp_buf[17..]).into_owned();"@,
            "        return Err(AfastError::Network(format!(\"AfError({}): {}\", code, msg)));"@,
            "    }"@,
            "    Ok(resp_buf[17..].to_vec())"@,
            "}"@,
        ]);
    } else {
        let ghost g26 = cb@;
        cb.l("fn _call_tcp(stream: &Arc<Mutex<TcpStream>>, handler_id: u32, payload: Vec<u8>) -> Result<Vec<u8>, AfastError> {");
        cb.l("    let mut stream = stream.lock().expect(\"mutex poisoned\");");
        cb.l("    let req_id: i32 = 1;");
        cb.l("    let mut frame = BinaryWriter::new();");
        cb.l("    frame.write_i32(req_id);");
        cb.l("    frame.write_u32(handler_id);");
        cb.l("    frame.write_u32(payload.len() as u32);");
        cb.l("    frame.write_raw(&payload);");
        cb.l("    let frame_bytes = frame.into_bytes();");
        cb.l("    let mut envelope = BinaryWriter::new();");
        cb.l("    envelope.write_u32(frame_bytes.len() as u32);");
        cb.l("    envelope.write_raw(&frame_bytes);");
        cb.l("    let data = envelope.into_bytes();");
        cb.l("    stream.write_all(&data)");
        cb.l("        .map_err(|e| AfastError::Network(e.to_string()))?;");
        cb.l("    stream.flush()");
        cb.l("        .map_err(|e| AfastError::Network(e.to_string()))?;");
        cb.l("    let mut len_buf = [0u8; 4];");
        cb.l("    stream.read_exact(&mut len_buf)");
        cb.l("        .map_err(|e| AfastError::Network(e.to_string()))?;");
        cb.l("    let resp_len = u32::from_le_bytes(len_buf) as usize;");
        cb.l("    let mut resp_buf = vec![0u8; resp_len];");
        cb.l("    stream.read_exact(&mut resp_buf)");
        cb.l("        .map_err(|e| AfastError::Network(e.to_string()))?;");
        cb.l("    if resp_buf.len() < 4 + 4 + 1 + 8 {");
        cb.l("        return Err(AfastError::Decode(\"response too short\".into()));");
        cb.l("    }");
        cb.l("    let status = resp_buf[8];");
        cb.l("    if status == 1 {");
        cb.l("        let code = i64::from_le_bytes(resp_buf[9..17].try_into().expect(\"resp_buf len checked\"));");
        cb.l("        let msg = String::from_utf8_lossy(&resp_buf[17..]).into_owned();");
        cb.l("        return Err(AfastError::Network(format!(\"AfError({}): {}\", code, msg)));");
        cb.l("    }");
        cb.l("    Ok(resp_buf[17..].to_vec())");
        cb.l("}");
        assert(cb@ =~= g26 + seq![
            "fn _call_tcp(stream: &Arc<Mutex<TcpStream>>, handler_id: u32, payload: Vec<u8>) -> Result<Vec<u8>, AfastError> {"@,
            "    let mut stream = stream.lock().expect(\"mutex poisoned\");"@,
            "    let req_id: i32 = 1;"@,
            "    let mut frame = BinaryWriter::new();"@,
            "    frame.write_i32(req_id);"@,
            "    frame.write_u32(handler_id);"@,
            "    frame.write_u32(payload.len() as u32);"@,
            "    frame.write_raw(&payload);"@,
            "    let frame_bytes = frame.into_bytes();"@,
            "    let mut envelope = BinaryWriter::new();"@,
            "    envelope.write_u32(frame_bytes.len() as u32);"@,
            "    envelope.write_raw(&frame_bytes);"@,
            "    let data = envelope.into_bytes();"@,
            "    stream.write_all(&data)"@,
            "        .map_err(|e| AfastError::Network(e.to_string()))?;"@,
            "    stream.flush()"@,
            "        .map_err(|e| AfastError::Network(e.to_string()))?;"@,
            "    let mut len_buf = [0u8; 4];"@,
            "    stream.read_exact(&mut len_buf)"@,
            "        .map_err(|e| AfastError::Network(e.to_string()))?;"@,
            "    let resp_len = u32::from_le_bytes(len_buf) as usize;"@,
            "    let mut resp_buf = vec![0u8; resp_len];"@,
            "    stream.read_exact(&mut resp_buf)"@,
            "        .map_err(|e| AfastError::Network(e.to_string()))?;"@,
            "    if resp_buf.len() < 4 + 4 + 1 + 8 {"@,
            "        return Err(AfastError::Decode(\"response too short\".into()));"@,
            "    }"@,
            "    let status = resp_buf[8];"@,
            "    if status == 1 {"@,
            "        let code = i64::from_le_bytes(resp_buf[9..17].try_into().expect(\"resp_buf len checked\"));"@,
            "        let msg = String::from_utf8_lossy(&resp_buf[17..]).into_owned();"@,
            "        return Err(AfastError::Network(format!(\"AfError({}): {}\", code, msg)));"@,
            "    }"@,
            "    Ok(resp_buf[17..].to_vec())"@,
            "}"@,
        ]);
        assert(cb@ =~= g24 + seq![
            "fn _call_tcp(stream: &Arc<Mutex<TcpStream>>, handler_id: u32, payload: Vec<u8>) -> Result<Vec<u8>, AfastError> {"@,
            "    let mut stream = stream.lock().expect(\"mutex poisoned\");"@,
            "    let req_id: i32 = 1;"@,
            "    let mut frame = BinaryWriter::new();"@,
            "    frame.write_i32(req_id);"@,
            "    frame.write_u32(handler_id);"@,
            "    frame.write_u32(payload.len() as u32);"@,
            "    frame.write_raw(&payload);"@,
            "    let frame_bytes = frame.into_bytes();"@,
            "    let mut envelope = BinaryWriter::new();"@,
            "    envelope.write_u32(frame_bytes.len() as u32);"@,
            "    envelope.write_raw(&frame_bytes);"@,
            "    let data = envelope.into_bytes();"@,
            "    stream.write_all(&data)"@,
            "        .map_err(|e| AfastError::Network(e.to_string()))?;"@,
            "    stream.flush()"@,
            "        .map_err(|e| AfastError::Network(e.to_string()))?;"@,
            "    let mut len_buf = [0u8; 4];"@,
            "    stream.read_exact(&mut len_buf)"@,
            "        .map_err(|e| AfastError::Network(e.to_string()))?;"@,
            "    let resp_len = u32::from_le_bytes(len_buf) as usize;"@,
            "    let mut resp_buf = vec![0u8; resp_len];"@,
            "    stream.read_exact(&mut resp_buf)"@,
            "        .map_err(|e| AfastError::Network(e.to_string()))?;"@,
            "    if resp_buf.len() < 4 + 4 + 1 + 8 {"@,
            "        return Err(AfastError::Decode(\"response too short\".into()));"@,
            "    }"@,
            "    let status = resp_buf[8];"@,
            "    if status == 1 {"@,
            "        let code = i64::from_le_bytes(resp_buf[9..17].try_into().expect(\"resp_buf len checked\"));"@,
            "        let msg = String::from_utf8_lossy(&resp_buf[17..]).into_owned();"@,
            "        return Err(AfastError::Network(format!(\"AfError({}): {}\", code, msg)));"@,
            "    }"@,
            "    Ok(resp_buf[17..].to_vec())"@,
            "}"@,
        ]);
    }
    assert(cb@ =~= g24 + (if is_async {
        seq![
            "async fn _call_tcp(stream: &Arc<Mutex<TcpStream>>, handler_id: u32, payload: Vec<u8>) -> Result<Vec<u8>, AfastError> {"@,
            "    let mut stream = stream.lock().await;"@,
            "    let req_id: i32 = 1;"@,
            "    let mut frame = BinaryWriter::new();"@,
            "    frame.write_i32(req_id);"@,
            "    frame.write_u32(handler_id);"@,
            "    frame.write_u32(payload.len() as u32);"@,
            "    frame.write_raw(&payload);"@,
            "    let frame_bytes = frame.into_bytes();"@,
            "    let mut envelope = BinaryWriter::new();"@,
            "    envelope.write_u32(frame_bytes.len() as u32);"@,
            "    envelope.write_raw(&frame_bytes);"@,
            "    let data = envelope.into_bytes();"@,
            "    stream.write_all(&data).await"@,
            "        .map_err(|e| AfastError::Network(e.to_string()))?;"@,
            "    stream.flush().await"@,
            "        .map_err(|e| AfastError::Network(e.to_string()))?;"@,
            "    let mut len_buf = [0u8; 4];"@,
            "    stream.read_exact(&mut len_buf).await"@,
            "        .map_err(|e| AfastError::Network(e.to_string()))?;"@,
            "    let resp_len = u32::from_le_bytes(len_buf) as usize;"@,
            "    let mut resp_buf = vec![0u8; resp_len];"@,
            "    stream.read_exact(&mut resp_buf).await"@,
            "        .map_err(|e| AfastError::Network(e.to_string()))?;"@,
            "    if resp_buf.len() < 4 + 4 + 1 + 8 {"@,
            "        return Err(AfastError::Decode(\"response too short\".into()));"@,
            "    }"@,
            "    let status = resp_buf[8];"@,
            "    if status == 1 {"@,
            "        let code = i64::from_le_bytes(resp_buf[9..17].try_into().expect(\"resp_buf len checked\"));"@,
            "        let msg = String::from_utf8_lossy(&resp_buf[17..]).into_owned();"@,
            "        return Err(AfastError::Network(format!(\"AfError({}): {}\", code, msg)));"@,
            "    }"@,
            "    Ok(resp_buf[17..].to_vec())"@,
            "}"@,
        ]
    } else {
        seq![
            "fn _call_tcp(stream: &Arc<Mutex<TcpStream>>, handler_id: u32, payload: Vec<u8>) -> Result<Vec<u8>, AfastError> {"@,
            "    let mut stream = stream.lock().expect(\"mutex poisoned\");"@,
            "    let req_id: i32 = 1;"@,
            "    let mut frame = BinaryWriter::new();"@,
            "    frame.write_i32(req_id);"@,
            "    frame.write_u32(handler_id);"@,
            "    frame.write_u32(payload.len() as u32);"@,
            "    frame.write_raw(&payload);"@,
            "    let frame_bytes = frame.into_bytes();"@,
            "    let mut envelope = BinaryWriter::new();"@,
            "    envelope.write_u32(frame_bytes.len() as u32);"@,
            "    envelope.write_raw(&frame_bytes);"@,
            "    let data = envelope.into_bytes();"@,
            "    stream.write_all(&data)"@,
            "        .map_err(|e| AfastError::Network(e.to_string()))?;"@,
            "    stream.flush()"@,
            "        .map_err(|e| AfastError::Network(e.to_string()))?;"@,
            "    let mut len_buf = [0u8; 4];"@,
            "    stream.read_exact(&mut len_buf)"@,
            "        .map_err(|e| AfastError::Network(e.to_string()))?;"@,
            "    let resp_len = u32::from_le_bytes(len_buf) as usize;"@,
            "    let mut resp_buf = vec![0u8; resp_len];"@,
            "    stream.read_exact(&mut resp_buf)"@,
            "        .map_err(|e| AfastError::Network(e.to_string()))?;"@,
            "    if resp_buf.len() < 4 + 4 + 1 + 8 {"@,
            "        return Err(AfastError::Decode(\"response too short\".into()));"@,
            "    }"@,
            "    let status = resp_buf[8];"@,
            "    if status == 1 {"@,
            "        let code = i64::from_le_bytes(resp_buf[9..17].try_into().expect(\"resp_buf len checked\"));"@,
            "        let msg = String::from_utf8_lossy(&resp_buf[17..]).into_owned();"@,
            "        return Err(AfastError::Network(format!(\"AfError({}): {}\", code, msg)));"@,
            "    }"@,
            "    Ok(resp_buf[17..].to_vec())"@,
            "}"@,
        ]
    }));
    let ghost g27 = cb@;
    cb.b();
    assert(cb@ =~= g27 + seq![
        Seq::<char>::empty(),
    ]);
    proof {
        reveal(rs_call_tcp);
    }
    assert(cb@ =~= start + rs_call_tcp(is_async));
}


/// Every binary handler of a tree can be turned into a Rust method: its
/// metadata is well formed and its type names can be formed.
pub open spec fn rs_tree_ok(hs: Seq<Handler>, path: Seq<Seq<char>>) -> bool
    decreases hs,
{
    if hs.len() == 0 {
        true
    } else {
        let h = hs.last();
        let cp = path.push(h.name@);
        &&& rs_tree_ok(hs.drop_last(), path)
        &&& (h.meta.name@.len() > 0 && !h.meta.is_ordinary ==> rs_meta_ok(handler_prefix_of(cp), h.meta))
        &&& rs_tree_ok(h.children@, cp)
    }
}

pub(crate) proof fn lemma_rs_tree_ok_at(hs: Seq<Handler>, path: Seq<Seq<char>>, i: int)
    requires
        rs_tree_ok(hs, path),
        0 <= i < hs.len(),
    ensures
        ({
            let h = hs[i];
            let cp = path.push(h.name@);
            &&& (h.meta.name@.len() > 0 && !h.meta.is_ordinary ==> rs_meta_ok(handler_prefix_of(cp), h.meta))
            &&& rs_tree_ok(h.children@, cp)
        }),
    decreases hs.len(),
{
    if i < hs.len() - 1 {
        lemma_rs_tree_ok_at(hs.drop_last(), path, i);
    }
}

/// The struct name of a group node below the struct `parent`: the node's
/// name without leading `:`, in PascalCase, between them and `Api`.
pub open spec fn group_struct_name(parent: Seq<char>, name: Seq<char>) -> Seq<char> {
    parent + pascal(trim_start_char(name, ':')) + "Api"@
}

/// The method returning a group's struct: borrowed from the client itself
/// (`main`) or passed on from an enclosing group.
pub open spec fn accessor_lines(acc: Seq<char>, gsn: Seq<char>, main: bool, has_customs: bool) -> Seq<Seq<char>> {
    let lt = if main {
        "'_"@
    } else {
        "'a"@
    };
    let amp = if main {
        "&"@
    } else {
        ""@
    };
    seq!["    pub fn "@ + acc + "(&self) -> "@ + gsn + "<"@ + lt + "> {"@, "        "@ + gsn + " { stream: "@ + amp + "self.stream,"@]
        + (if has_customs {
        seq!["            customs: "@ + amp + "self.customs,"@]
    } else {
        Seq::empty()
    }) + seq!["        }"@, "    }"@, Seq::empty()]
}

/// The member of the impl block of the struct `parent` for the node `h`
/// below `path`: an accessor for a group node, a method for a binary
/// handler, nothing for an ordinary handler.
pub open spec fn member_lines(
    h: Handler,
    all: Seq<Handler>,
    path: Seq<Seq<char>>,
    parent: Seq<char>,
    main: bool,
    has_customs: bool,
    is_async: bool,
    debug: bool,
) -> Seq<Seq<char>> {
    if h.meta.name@.len() == 0 {
        accessor_lines(snake(trim_start_char(h.name@, ':')), group_struct_name(parent, h.name@), main, has_customs)
    } else if !h.meta.is_ordinary {
        seq![rs_method_text(h, all, handler_prefix_of(path.push(h.name@)), "    "@, is_async, debug), Seq::empty()]
    } else {
        Seq::empty()
    }
}

/// The members of the impl block of the struct `parent` for the nodes
/// `hs` below `path`, in order.
pub open spec fn members(
    hs: Seq<Handler>,
    all: Seq<Handler>,
    path: Seq<Seq<char>>,
    parent: Seq<char>,
    main: bool,
    has_customs: bool,
    is_async: bool,
    debug: bool,
) -> Seq<Seq<char>>
    decreases hs.len(),
{
    if hs.len() == 0 {
        Seq::empty()
    } else {
        members(hs.drop_last(), all, path, parent, main, has_customs, is_async, debug) + member_lines(
            hs.last(),
            all,
            path,
            parent,
            main,
            has_customs,
            is_async,
            debug,
        )
    }
}

/// The declaration of a group's struct, which borrows the client's stream
/// (and its Custom providers).
pub open spec fn group_head(name: Seq<char>, has_customs: bool) -> Seq<Seq<char>> {
    seq![
        "/// Nested API group `"@ + name + "`."@,
        "pub struct "@ + name + "<'a> {"@,
        "    stream: &'a Arc<Mutex<TcpStream>>,"@,
    ] + (if has_customs {
        seq![
            "    #[allow(clippy::type_complexity)]"@,
            "    customs: &'a Vec<Box<dyn Fn() -> Result<Box<dyn std::any::Any>, Box<dyn std::error::Error>> + Send + Sync>>,"@,
        ]
    } else {
        Seq::empty()
    }) + seq!["}"@, Seq::empty()]
}

/// A group's struct, its impl block, and then the structs of its
/// sub-groups.
pub open spec fn group_struct(
    hs: Seq<Handler>,
    all: Seq<Handler>,
    path: Seq<Seq<char>>,
    name: Seq<char>,
    has_customs: bool,
    is_async: bool,
    debug: bool,
) -> Seq<Seq<char>>
    decreases hs, 1nat,
{
    group_head(name, has_customs) + seq!["impl<'a> "@ + name + "<'a> {"@] + members(
        hs,
        all,
        path,
        name,
        false,
        has_customs,
        is_async,
        debug,
    ) + seq!["}"@, Seq::empty()] + subgroups(hs, all, path, name, has_customs, is_async, debug)
}

/// The structs of the group nodes among `hs`, each with its sub-groups.
pub open spec fn subgroups(
    hs: Seq<Handler>,
    all: Seq<Handler>,
    path: Seq<Seq<char>>,
    parent: Seq<char>,
    has_customs: bool,
    is_async: bool,
    debug: bool,
) -> Seq<Seq<char>>
    decreases hs, 0nat,
{
    if hs.len() == 0 {
        Seq::empty()
    } else {
        let h = hs.last();
        subgroups(hs.drop_last(), all, path, parent, has_customs, is_async, debug) + if h.meta.name@.len() == 0 {
            group_struct(
                h.children@,
                all,
                path.push(h.name@),
                group_struct_name(parent, h.name@),
                has_customs,
                is_async,
                debug,
            )
        } else {
            Seq::empty()
        }
    }
}

fn push_accessor(cb: &mut CodeBuf, acc: &str, gsn: &str, main: bool, has_customs: bool)
    ensures
        final(cb)@ == old(cb)@ + accessor_lines(acc@, gsn@, main, has_customs),
{
    let ghost start = cb@;
    let lt = if main {
        "'_"
    } else {
        "'a"
    };
    let amp = if main {
        "&"
    } else {
        ""
    };
    cb.push(cat7("    pub fn ", acc, "(&self) -> ", gsn, "<", lt, "> {"));
    cb.push(cat5("        ", gsn, " { stream: ", amp, "self.stream,"));
    if has_customs {
        cb.push(cat3("            customs: ", amp, "self.customs,"));
    }
    cb.l("        }");
    cb.l("    }");
    cb.b();
    assert(cb@ =~= start + accessor_lines(acc@, gsn@, main, has_customs));
}

fn push_member(
    cb: &mut CodeBuf,
    h: &Handler,
    all: &Vec<Handler>,
    path: &Vec<String>,
    parent: &str,
    main: bool,
    has_customs: bool,
    is_async: bool,
    debug: bool,
)
    requires
        h.meta.name@.len() > 0 && !h.meta.is_ordinary ==> rs_meta_ok(handler_prefix_of(views(path@).push(h.name@)), h.meta),
    ensures
        final(cb)@ == old(cb)@ + member_lines(*h, all@, views(path@), parent@, main, has_customs, is_async, debug),
{
    if h.meta.name.unicode_len() == 0 {
        let clean = trim_start_matches(h.name.as_str(), ':');
        let acc = to_snake_case(clean.as_str());
        let pc = to_pascal_case(clean.as_str());
        let gsn = cat3(parent, pc.as_str(), "Api");
        push_accessor(cb, acc.as_str(), gsn.as_str(), main, has_customs);
    } else if !h.meta.is_ordinary {
        let mut child_path: Vec<String> = path.clone();
        let ghost p0 = child_path@;
        child_path.push(owned(h.name.as_str()));
        assert(views(child_path@) =~= views(path@).push(h.name@)) by {
            assert(views(p0) =~= views(path@));
        }
        let prefix = handler_prefix(&child_path);
        let m = handler_method_rs(h, all, prefix.as_str(), "    ", is_async, debug);
        let ghost c0 = cb@;
        cb.push(m);
        cb.b();
        assert(cb@ =~= c0 + seq![m@, Seq::<char>::empty()]);
    } else {
        assert(cb@ =~= old(cb)@ + Seq::<Seq<char>>::empty());
    }
}

fn push_members(
    cb: &mut CodeBuf,
    handlers: &Vec<Handler>,
    all: &Vec<Handler>,
    path: &Vec<String>,
    parent: &str,
    main: bool,
    has_customs: bool,
    is_async: bool,
    debug: bool,
)
    requires
        rs_tree_ok(handlers@, views(path@)),
    ensures
        final(cb)@ == old(cb)@ + members(handlers@, all@, views(path@), parent@, main, has_customs, is_async, debug),
{
    let mut i: usize = 0;
    while i < handlers.len()
        invariant
            rs_tree_ok(handlers@, views(path@)),
            i <= handlers@.len(),
            cb@ == old(cb)@ + members(
                handlers@.subrange(0, i as int),
                all@,
                views(path@),
                parent@,
                main,
                has_customs,
                is_async,
                debug,
            ),
        decreases handlers@.len() - i,
    {
        let h = &handlers[i];
        proof {
            lemma_rs_tree_ok_at(handlers@, views(path@), i as int);
            assert(handlers@.subrange(0, i + 1).drop_last() =~= handlers@.subrange(0, i as int));
            assert(handlers@.subrange(0, i + 1).last() == *h);
        }
        push_member(cb, h, all, path, parent, main, has_customs, is_async, debug);
        i = i + 1;
    }
    assert(handlers@.subrange(0, handlers@.len() as int) =~= handlers@);
}

fn push_group_head(cb: &mut CodeBuf, name: &str, has_customs: bool)
    ensures
        final(cb)@ == old(cb)@ + group_head(name@, has_customs),
{
    let ghost start = cb@;
    cb.push(cat3("/// Nested API group `", name, "`."));
    cb.push(cat3("pub struct ", name, "<'a> {"));
    cb.l("    stream: &'a Arc<Mutex<TcpStream>>,");
    if has_customs {
        cb.l("    #[allow(clippy::type_complexity)]");
        cb.l("    customs: &'a Vec<Box<dyn Fn() -> Result<Box<dyn std::any::Any>, Box<dyn std::error::Error>> + Send + Sync>>,");
    }
    cb.l("}");
    cb.b();
    assert(cb@ =~= start + group_head(name@, has_customs));
}

fn gen_group_struct(
    cb: &mut CodeBuf,
    handlers: &Vec<Handler>,
    all: &Vec<Handler>,
    path: &Vec<String>,
    name: &str,
    has_customs: bool,
    is_async: bool,
    debug: bool,
)
    requires
        rs_tree_ok(handlers@, views(path@)),
    ensures
        final(cb)@ == old(cb)@ + group_struct(handlers@, all@, views(path@), name@, has_customs, is_async, debug),
    decreases handlers, 1nat,
{
    let ghost start = cb@;
    push_group_head(cb, name, has_customs);
    cb.push(cat3("impl<'a> ", name, "<'a> {"));
    let ghost c1 = cb@;
    push_members(cb, handlers, all, path, name, false, has_customs, is_async, debug);
    let ghost ms = members(handlers@, all@, views(path@), name@, false, has_customs, is_async, debug);
    assert(cb@ == c1 + ms);
    cb.l("}");
    cb.b();
    let ghost c2 = cb@;
    gen_subgroups(cb, handlers, all, path, name, has_customs, is_async, debug);
    let ghost sg = subgroups(handlers@, all@, views(path@), name@, has_customs, is_async, debug);
    assert(cb@ == c2 + sg);
    assert(cb@ =~= start + (group_head(name@, has_customs) + seq!["impl<'a> "@ + name@ + "<'a> {"@] + ms + seq![
        "}"@,
        Seq::empty(),
    ] + sg));
}

fn gen_subgroups(
    cb: &mut CodeBuf,
    handlers: &Vec<Handler>,
    all: &Vec<Handler>,
    path: &Vec<String>,
    parent: &str,
    has_customs: bool,
    is_async: bool,
    debug: bool,
)
    requires
        rs_tree_ok(handlers@, views(path@)),
    ensures
        final(cb)@ == old(cb)@ + subgroups(handlers@, all@, views(path@), parent@, has_customs, is_async, debug),
    decreases handlers, 0nat,
{
    let mut i: usize = 0;
    while i < handlers.len()
        invariant
            rs_tree_ok(handlers@, views(path@)),
            i <= handlers@.len(),
            cb@ == old(cb)@ + subgroups(
                handlers@.subrange(0, i as int),
                all@,
                views(path@),
                parent@,
                has_customs,
                is_async,
                debug,
            ),
        decreases handlers@.len() - i,
    {
        let h = &handlers[i];
        proof {
            lemma_rs_tree_ok_at(handlers@, views(path@), i as int);
            assert(handlers@.subrange(0, i + 1).drop_last() =~= handlers@.subrange(0, i as int));
            assert(handlers@.subrange(0, i + 1).last() == *h);
        }
        if h.meta.name.unicode_len() == 0 {
            let mut child_path: Vec<String> = path.clone();
            let ghost p0 = child_path@;
            child_path.push(owned(h.name.as_str()));
            assert(views(child_path@) =~= views(path@).push(h.name@)) by {
                assert(views(p0) =~= views(path@));
            }
            let clean = trim_start_matches(h.name.as_str(), ':');
            let pc = to_pascal_case(clean.as_str());
            let gsn = cat3(parent, pc.as_str(), "Api");
            assert(decreases_to!(handlers => h.children));
            gen_group_struct(cb, &h.children, all, &child_path, gsn.as_str(), has_customs, is_async, debug);
        }
        i = i + 1;
    }
    assert(handlers@.subrange(0, handlers@.len() as int) =~= handlers@);
}

/// A service's handlers can be turned into Rust code: the type names of
/// every handler and the methods of the binary handlers can be formed.
pub open spec fn service_rs_ok(svc: Service) -> bool {
    exports_ok(svc.handlers@, Seq::empty()) && rs_tree_ok(svc.handlers@, Seq::empty())
}

/// The lines of a service's Rust client module; the client is async when
/// the transports include the async TCP one.
pub open spec fn service_rs_lines(svc: Service, calls: Seq<RsCallType>, debug: bool) -> Seq<Seq<char>> {
    let is_async = calls.contains(RsCallType::TcpAsync);
    let class = pascal(svc.name@);
    let has_customs = customs_of(svc.handlers@).len() > 0;
    let hs = svc.handlers@;
    rs_svc_head(is_async) + tree_exports(hs, Seq::empty(), (Seq::empty(), Seq::empty())).0 + rs_client_struct(
        svc.name@,
        svc.desc@.len() > 0,
        svc.desc@,
        class,
        has_customs,
    ) + rs_client_new(is_async, svc.name@, class, has_customs) + rs_call_tcp(is_async) + seq![
        "impl "@ + class + "Client {"@,
    ] + members(hs, hs, Seq::empty(), class, true, has_customs, is_async, debug) + rs_streams(svc.ws_routes@)
        + seq!["}"@, Seq::empty()] + subgroups(hs, hs, Seq::empty(), class, has_customs, is_async, debug)
}

/// Whether the transports `calls` include asynchronous TCP.
pub fn has_async(calls: &Vec<RsCallType>) -> (r: bool)
    ensures
        r == calls@.contains(RsCallType::TcpAsync),
{
    let mut i: usize = 0;
    while i < calls.len()
        invariant
            i <= calls@.len(),
            forall|j: int| 0 <= j < i ==> calls@[j] != RsCallType::TcpAsync,
        decreases calls@.len() - i,
    {
        if calls[i] == RsCallType::TcpAsync {
            assert(calls@[i as int] == RsCallType::TcpAsync);
            return true;
        }
        i = i + 1;
    }
    false
}

/// Generates the Rust client module of a service: its types, a client
/// struct holding the TCP stream (blocking, or async when the transports
/// include the async one), the request function, and one method per
/// binary handler, grouped in structs along the handler tree.
#[verifier::rlimit(60)]
pub fn generate_service_rs(svc: &Service, calls: &Vec<RsCallType>, debug: bool) -> (r: String)
    requires
        service_rs_ok(*svc),
    ensures
        r@ == build_lines(service_rs_lines(*svc, calls@, debug)),
{
    let is_async = has_async(calls);
    let class_name = to_pascal_case(svc.name.as_str());
    let cn = class_name.as_str();
    let customs = collect_customs(&svc.handlers);
    let has_customs = customs.len() > 0;
    let hs = &svc.handlers;
    let mut cb = CodeBuf::new();
    push_rs_svc_head(&mut cb, is_async);
    let mut exports = CodeBuf::new();
    let mut emitted: Vec<String> = Vec::new();
    let empty_path: Vec<String> = Vec::new();
    assert(views(empty_path@) =~= Seq::<Seq<char>>::empty());
    assert(views(emitted@) =~= Seq::<Seq<char>>::empty());
    collect_type_exports_rs(hs, &empty_path, &mut emitted, &mut exports);
    cb.extend(exports);
    push_rs_client_struct(&mut cb, svc.name.as_str(), svc.desc.unicode_len() > 0, svc.desc.as_str(), cn, has_customs);
    push_rs_client_new(&mut cb, is_async, svc.name.as_str(), cn, has_customs);
    push_rs_call_tcp(&mut cb, is_async);
    cb.push(cat3("impl ", cn, "Client {"));
    push_members(&mut cb, hs, hs, &empty_path, cn, true, has_customs, is_async, debug);
    push_rs_streams(&mut cb, &svc.ws_routes);
    cb.l("}");
    cb.b();
    gen_subgroups(&mut cb, hs, hs, &empty_path, cn, has_customs, is_async, debug);
    assert(cb@ =~= service_rs_lines(*svc, calls@, debug));
    cb.build()
}

/// The client modules of the named services, async and without debug
/// output.
pub open spec fn named_rs_texts(svcs: Seq<Service>) -> Seq<Seq<char>>
    decreases svcs.len(),
{
    if svcs.len() == 0 {
        Seq::empty()
    } else {
        let rest = named_rs_texts(svcs.drop_last());
        let s = svcs.last();
        if s.name@.len() > 0 {
            rest.push(build_lines(service_rs_lines(s, seq![RsCallType::TcpAsync], false)))
        } else {
            rest
        }
    }
}

/// Every named service's handlers can be turned into Rust code.
pub open spec fn named_services_rs_ok(svcs: Seq<Service>) -> bool {
    &&& services_ok(svcs)
    &&& forall|i: int| 0 <= i < svcs.len() && #[trigger] svcs[i].name@.len() > 0 ==> service_rs_ok(svcs[i])
}

/// The whole Rust output: the shared module, then each named service's
/// module, separated by blank lines.
pub open spec fn rs_code(svcs: Seq<Service>) -> Seq<char> {
    join_seq(seq![common_rs_text(svcs)] + named_rs_texts(svcs), "\n\n"@)
}

impl AFast {
    /// Returns the complete generated Rust code (async clients) as a
    /// single string.
    pub fn get_rs_code(&self) -> (r: String)
        requires
            named_services_rs_ok(self.services@),
        ensures
            r@ == rs_code(self.services@),
    {
        let common = generate_common_rs(&self.services, true);
        let mut parts: Vec<String> = Vec::new();
        parts.push(common);
        let mut calls: Vec<RsCallType> = Vec::new();
        calls.push(RsCallType::TcpAsync);
        assert(calls@ =~= seq![RsCallType::TcpAsync]);
        let mut i: usize = 0;
        while i < self.services.len()
            invariant
                i <= self.services@.len(),
                named_services_rs_ok(self.services@),
                calls@ == seq![RsCallType::TcpAsync],
                views(parts@) == seq![common_rs_text(self.services@)] + named_rs_texts(
                    self.services@.subrange(0, i as int),
                ),
            decreases self.services@.len() - i,
        {
            let svc = &self.services[i];
            proof {
                assert(self.services@.subrange(0, i + 1).drop_last() =~= self.services@.subrange(0, i as int));
            }
            if svc.name.unicode_len() > 0 {
                assert(service_rs_ok(self.services@[i as int]));
                let text = generate_service_rs(svc, &calls, false);
                let ghost p0 = views(parts@);
                parts.push(text);
                assert(views(parts@) =~= p0.push(text@));
            }
            i = i + 1;
        }
        assert(self.services@.subrange(0, self.services@.len() as int) =~= self.services@);
        join(&parts, "\n\n")
    }
}

} // verus!
