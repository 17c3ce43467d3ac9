//! The registration boundary: each shader is declared as a stable record —
//! entry-point name, kind, and where its crate's compiled binary lands — and
//! everything downstream is driven from that record instead of per-shader
//! glue.

use vstd::prelude::*;

verus! {

/// Which programmable kind a shader is. Only pixel shaders exist so far.
#[derive(Debug, Clone, Copy, PartialEq, Eq, Structural)]
pub enum ShaderType {
    Pixel,
}

/// A shader's registration record, as its crate declares it: enough to find
/// the compiled binary and name the entry point inside it.
#[derive(Debug, Clone, Copy)]
pub struct RawShader {
    pub shader_type: ShaderType,
    /// The declaring crate's name; dashes here become underscores in the
    /// compiled file's name.
    pub crate_name: &'static str,
    /// The directory the binary is written under.
    pub crate_path: &'static str,
    pub entry_point: &'static str,
}

/// A runnable shader: the record resolved to a concrete binary path.
#[derive(Debug)]
pub struct Shader {
    pub shader_type: ShaderType,
    /// Where the compiled binary lies: the crate's path, then the crate's
    /// name with dashes replaced by underscores, with the binary suffix.
    pub bin_path: String,
    pub entry_point: String,
}

/// `s` with every `-` replaced by `_`: how a crate's name appears in its
/// compiled artifact's file name.
pub open spec fn dashes_to_underscores(s: Seq<char>) -> Seq<char> {
    s.map(|i: int, c: char| if c == '-' { '_' } else { c })
}

/// Replace every dash in `s` with an underscore.
pub fn replace_dashes(s: &str) -> (r: String)
    ensures
        r@ == dashes_to_underscores(s@),
{
    let n = s.unicode_len();
    let mut out = String::new();
    let mut i: usize = 0;
    while i < n
        invariant
            n == s@.len(),
            0 <= i <= n,
            out@ == dashes_to_underscores(s@.subrange(0, i as int)),
        decreases n - i,
    {
        let c = s.get_char(i);
        if c == '-' {
            proof {
                reveal_strlit("_");
            }
            out.append("_");
        } else {
            out.append(s.substring_char(i, i + 1));
        }
        proof {
            assert(out@ =~= dashes_to_underscores(s@.subrange(0, i + 1)));
        }
        i = i + 1;
    }
    proof {
        assert(s@.subrange(0, n as int) =~= s@);
    }
    out
}

impl Shader {
    /// Resolve a registration record: the binary lies in the crate's
    /// directory, named after the crate with dashes turned to underscores
    /// and the `.spv` suffix, and the entry point carries over.
    pub fn from_raw(raw: &RawShader) -> (shader: Shader)
        ensures
            shader.shader_type == raw.shader_type,
            shader.bin_path@ == raw.crate_path@ + "/"@ + dashes_to_underscores(raw.crate_name@)
                + ".spv"@,
            shader.entry_point@ == raw.entry_point@,
    {
        let mut bin_path = String::new();
        bin_path.append(raw.crate_path);
        bin_path.append("/");
        let name = replace_dashes(raw.crate_name);
        bin_path.append(name.as_str());
        bin_path.append(".spv");
        Shader {
            shader_type: raw.shader_type,
            bin_path,
            entry_point: raw.entry_point.to_owned(),
        }
    }
}

} // verus!
