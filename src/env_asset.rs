use vstd::prelude::*;
use vstd::string::{StringExecFns, StringSliceAdditionalSpecFns};
use vstd::utf8::encode_utf8;

use crate::text::{append_bytes, append_str};

verus! {

/// A hexadecimal digit, lower case.
pub open spec fn hex_digit_spec(n: u8) -> u8 {
    if n < 10 {
        (0x30 + n) as u8
    } else {
        (0x61 + n - 10) as u8
    }
}

/// What one byte becomes inside a JavaScript string literal: quote,
/// backslash and control characters are escaped, anything else stays.
pub open spec fn js_escape_byte(b: u8) -> Seq<u8> {
    if b == 0x22 {
        seq![0x5cu8, 0x22]
    } else if b == 0x5c {
        seq![0x5cu8, 0x5c]
    } else if b == 0x08 {
        seq![0x5cu8, 0x62]
    } else if b == 0x0c {
        seq![0x5cu8, 0x66]
    } else if b == 0x0a {
        seq![0x5cu8, 0x6e]
    } else if b == 0x0d {
        seq![0x5cu8, 0x72]
    } else if b == 0x09 {
        seq![0x5cu8, 0x74]
    } else if b < 0x20 {
        seq![0x5cu8, 0x75, 0x30, 0x30, hex_digit_spec(b / 16), hex_digit_spec(b % 16)]
    } else {
        seq![b]
    }
}

/// The bytes of `s`, each escaped for a JavaScript string literal.
pub open spec fn js_escape_spec(s: Seq<u8>) -> Seq<u8>
    decreases s.len(),
{
    if s.len() == 0 {
        Seq::empty()
    } else {
        js_escape_spec(s.drop_last()) + js_escape_byte(s.last())
    }
}

/// `s` as a double-quoted JavaScript string literal.
pub open spec fn js_string_spec(s: Seq<u8>) -> Seq<u8> {
    seq![0x22u8] + js_escape_spec(s) + seq![0x22u8]
}

/// The statement that sets `name` to `value`, which is code ready to embed.
pub open spec fn assignment_spec(name: Seq<char>, value: Seq<char>) -> Seq<u8> {
    "env[".spec_bytes() + js_string_spec(encode_utf8(name)) + "] = ".spec_bytes() + encode_utf8(value)
        + ";\n".spec_bytes()
}

/// The code that copies `process.env` into a plain object and assigns each
/// entry of `env` onto it, in order.
pub open spec fn env_code_spec(env: Seq<(String, String)>) -> Seq<u8>
    decreases env.len(),
{
    if env.len() == 0 {
        "const env = process.env = {...process.env};\n\n".spec_bytes()
    } else {
        env_code_spec(env.drop_last()) + assignment_spec(env.last().0@, env.last().1@)
    }
}

/// The path of the asset under `root`.
pub open spec fn env_path_spec(root: Seq<char>) -> Seq<char> {
    if root.len() == 0 {
        ".env.js"@
    } else {
        root + "/.env.js"@
    }
}

fn hex_digit(n: u8) -> (r: u8)
    requires
        n < 16,
    ensures
        r == hex_digit_spec(n),
{
    if n < 10 {
        0x30 + n
    } else {
        0x61 + n - 10
    }
}

fn push_js_escaped(out: &mut Vec<u8>, b: u8)
    ensures
        final(out)@ == old(out)@ + js_escape_byte(b),
{
    let ghost start = out@;
    if b == 0x22 || b == 0x5c {
        out.push(0x5cu8);
        out.push(b);
    } else if b == 0x08 {
        out.push(0x5cu8);
        out.push(0x62u8);
    } else if b == 0x0c {
        out.push(0x5cu8);
        out.push(0x66u8);
    } else if b == 0x0a {
        out.push(0x5cu8);
        out.push(0x6eu8);
    } else if b == 0x0d {
        out.push(0x5cu8);
        out.push(0x72u8);
    } else if b == 0x09 {
        out.push(0x5cu8);
        out.push(0x74u8);
    } else if b < 0x20 {
        out.push(0x5cu8);
        out.push(0x75u8);
        out.push(0x30u8);
        out.push(0x30u8);
        out.push(hex_digit(b / 16));
        out.push(hex_digit(b % 16));
    } else {
        out.push(b);
    }
    assert(out@ == start + js_escape_byte(b));
}

/// Appends `s` to `out` as a double-quoted JavaScript string literal.
pub fn append_js_string(out: &mut Vec<u8>, s: &[u8])
    ensures
        final(out)@ == old(out)@ + js_string_spec(s@),
{
    let ghost start = out@;
    out.push(0x22u8);
    let mut i: usize = 0;
    while i < s.len()
        invariant
            i <= s@.len(),
            out@ == start + seq![0x22u8] + js_escape_spec(s@.subrange(0, i as int)),
        decreases s@.len() - i,
    {
        push_js_escaped(out, s[i]);
        let ghost prefix = s@.subrange(0, i + 1);
        assert(prefix.drop_last() == s@.subrange(0, i as int));
        i = i + 1;
    }
    assert(s@.subrange(0, s@.len() as int) == s@);
    out.push(0x22u8);
}

/// The asset that initialises `process.env` with the configured entries
/// when the app starts; all chunks share it.
pub struct ProcessEnvAsset {
    /// The directory under which the asset's path is made.
    pub root: String,
    /// The entries, as names and values ready to embed as code, in order.
    pub env: Vec<(String, String)>,
}

impl ProcessEnvAsset {
    pub fn new(root: String, env: Vec<(String, String)>) -> (r: Self)
        ensures
            r.root == root,
            r.env == env,
    {
        ProcessEnvAsset { root, env }
    }

    /// The path that identifies the asset: `.env.js` under the root.
    pub fn ident(&self) -> (r: String)
        ensures
            r@ == env_path_spec(self.root@),
    {
        if self.root.as_str().is_empty() {
            String::from_str(".env.js")
        } else {
            self.root.clone().concat("/.env.js")
        }
    }

    /// The code of the asset's chunk item.
    pub fn chunk_item_content(&self) -> (r: Vec<u8>)
        ensures
            r@ == env_code_spec(self.env@),
    {
        let mut code: Vec<u8> = Vec::new();
        append_str(&mut code, "const env = process.env = {...process.env};\n\n");
        let mut i: usize = 0;
        while i < self.env.len()
            invariant
                i <= self.env@.len(),
                code@ == env_code_spec(self.env@.subrange(0, i as int)),
            decreases self.env@.len() - i,
        {
            let (name, value) = &self.env[i];
            append_str(&mut code, "env[");
            append_js_string(&mut code, name.as_str().as_bytes());
            append_str(&mut code, "] = ");
            append_bytes(&mut code, value.as_str().as_bytes());
            append_str(&mut code, ";\n");
            let ghost prefix = self.env@.subrange(0, i + 1);
            assert(prefix.drop_last() == self.env@.subrange(0, i as int));
            i = i + 1;
        }
        assert(self.env@.subrange(0, self.env@.len() as int) == self.env@);
        code
    }
}

} // verus!
