//! Protocol parsers that turn a received frame into readable text, and the
//! registry that cycles through them.
use vstd::prelude::*;
use vstd::string::*;
use crate::text::{
    decimal, decode_lossy, hex_joined, hex_pair, lossy_utf8, opt_text, push_decimal,
    push_hex_joined, push_hex_pair, trim, trimmed,
};

verus! {

/// A parser that may recognise a frame and describe it.
pub trait ProtocolParser {
    /// The parser's display name.
    fn name(&self) -> &str;

    /// The description of the frame, or `None` where the parser does not
    /// recognise it.
    fn try_parse(&self, data: &[u8]) -> Option<String>;
}

/// Shows any frame that is not blank as UTF-8 text.
pub struct LineProtocol;

/// Pretty-prints frames that hold one JSON object or array.
pub struct JsonProtocol;

/// Describes Modbus RTU frames: address, function code and payload.
pub struct ModbusRtuProtocol;

/// What the line parser yields: the decoded text, unless it is blank.
pub open spec fn line_parse(data: Seq<u8>) -> Option<Seq<char>> {
    let s = lossy_utf8(data);
    if trimmed(s).len() == 0 {
        None
    } else {
        Some(s)
    }
}

/// What serde_json yields when it reads a text as one JSON value
/// (`from_str::<Value>`) and writes that value back pretty-printed
/// (`to_string_pretty`): `None` where either step fails.
pub uninterp spec fn json_pretty(text: Seq<char>) -> Option<Seq<char>>;

/// Reads the text as one JSON value and pretty-prints it (serde_json's
/// `from_str::<Value>` then `to_string_pretty`). The `Value` in between
/// never leaves this function. Claimed: the result is the named
/// `json_pretty` of the text; which texts parse and how the output is laid
/// out is left to the name.
#[verifier::external_body]
fn pretty_json(text: &str) -> (res: Option<String>)
    ensures
        opt_text(res) == json_pretty(text@),
{
    match serde_json::from_str::<serde_json::Value>(text) {
        Ok(value) => serde_json::to_string_pretty(&value).ok(),
        Err(_) => None,
    }
}

/// What the JSON parser yields: the trimmed text pretty-printed, where it
/// starts with `{` or `[` and is valid JSON.
pub open spec fn json_parse(data: Seq<u8>) -> Option<Seq<char>> {
    let t = trimmed(lossy_utf8(data));
    if t.len() > 0 && (t[0] == '{' || t[0] == '[') {
        json_pretty(t)
    } else {
        None
    }
}

/// The name of a Modbus function code.
pub open spec fn modbus_function_name(code: u8) -> Seq<char> {
    if code == 0x03 {
        "\u{8bfb}\u{53d6}\u{4fdd}\u{6301}\u{5bc4}\u{5b58}\u{5668}"@
    } else if code == 0x06 {
        "\u{5199}\u{5355}\u{4e2a}\u{5bc4}\u{5b58}\u{5668}"@
    } else if code == 0x10 {
        "\u{5199}\u{591a}\u{4e2a}\u{5bc4}\u{5b58}\u{5668}"@
    } else {
        "\u{672a}\u{77e5}\u{529f}\u{80fd}\u{7801}"@
    }
}

/// What the Modbus RTU parser yields: for frames of at least three bytes,
/// `ModbusRTU | 地址:<addr> | 功能码:0x<FF>(<name>) | 数据:<hex payload>`.
pub open spec fn modbus_parse(data: Seq<u8>) -> Option<Seq<char>> {
    if data.len() < 3 {
        None
    } else {
        Some(
            "ModbusRTU | \u{5730}\u{5740}:"@ + decimal(data[0] as nat)
                + " | \u{529f}\u{80fd}\u{7801}:0x"@ + hex_pair(data[1]) + "("@
                + modbus_function_name(data[1]) + ") | \u{6570}\u{636e}:"@
                + hex_joined(data.subrange(2, data.len() as int)),
        )
    }
}

impl ProtocolParser for LineProtocol {
    fn name(&self) -> (res: &str)
        ensures
            res@ == "Line"@,
    {
        "Line"
    }

    fn try_parse(&self, data: &[u8]) -> (res: Option<String>)
        ensures
            opt_text(res) == line_parse(data@),
    {
        let s = decode_lossy(data);
        let t = trim(s.as_str());
        if t.unicode_len() == 0 {
            None
        } else {
            Some(s)
        }
    }
}

impl ProtocolParser for JsonProtocol {
    fn name(&self) -> (res: &str)
        ensures
            res@ == "JSON"@,
    {
        "JSON"
    }

    fn try_parse(&self, data: &[u8]) -> (res: Option<String>)
        ensures
            opt_text(res) == json_parse(data@),
    {
        let s = decode_lossy(data);
        let t = trim(s.as_str());
        if t.unicode_len() > 0 {
            let first = t.get_char(0);
            if first == '{' || first == '[' {
                return pretty_json(t);
            }
        }
        None
    }
}

impl ProtocolParser for ModbusRtuProtocol {
    fn name(&self) -> (res: &str)
        ensures
            res@ == "ModbusRTU"@,
    {
        "ModbusRTU"
    }

    fn try_parse(&self, data: &[u8]) -> (res: Option<String>)
        ensures
            opt_text(res) == modbus_parse(data@),
    {
        if data.len() < 3 {
            return None;
        }
        let addr = data[0];
        let func = data[1];
        let mut out = String::new();
        out.append("ModbusRTU | \u{5730}\u{5740}:");
        push_decimal(&mut out, addr as u64);
        out.append(" | \u{529f}\u{80fd}\u{7801}:0x");
        push_hex_pair(&mut out, func);
        out.append("(");
        if func == 0x03 {
            out.append("\u{8bfb}\u{53d6}\u{4fdd}\u{6301}\u{5bc4}\u{5b58}\u{5668}");
        } else if func == 0x06 {
            out.append("\u{5199}\u{5355}\u{4e2a}\u{5bc4}\u{5b58}\u{5668}");
        } else if func == 0x10 {
            out.append("\u{5199}\u{591a}\u{4e2a}\u{5bc4}\u{5b58}\u{5668}");
        } else {
            out.append("\u{672a}\u{77e5}\u{529f}\u{80fd}\u{7801}");
        }
        out.append(") | \u{6570}\u{636e}:");
        push_hex_joined(&mut out, data, 2);
        Some(out)
    }
}

/// The parsers a registry can hold.
#[derive(Debug, Clone, Copy, PartialEq, Eq, Structural)]
pub enum ParserKind {
    Line,
    Json,
    ModbusRtu,
}

/// The display name of a parser.
pub open spec fn kind_name(k: ParserKind) -> Seq<char> {
    match k {
        ParserKind::Line => "Line"@,
        ParserKind::Json => "JSON"@,
        ParserKind::ModbusRtu => "ModbusRTU"@,
    }
}

/// What a parser yields for a frame.
pub open spec fn kind_parse(k: ParserKind, data: Seq<u8>) -> Option<Seq<char>> {
    match k {
        ParserKind::Line => line_parse(data),
        ParserKind::Json => json_parse(data),
        ParserKind::ModbusRtu => modbus_parse(data),
    }
}

/// Runs one parser on a frame.
pub fn run_parser(k: ParserKind, data: &[u8]) -> (res: Option<String>)
    ensures
        opt_text(res) == kind_parse(k, data@),
{
    match k {
        ParserKind::Line => LineProtocol.try_parse(data),
        ParserKind::Json => JsonProtocol.try_parse(data),
        ParserKind::ModbusRtu => ModbusRtuProtocol.try_parse(data),
    }
}

/// The name of one parser.
pub fn parser_name(k: ParserKind) -> (res: &'static str)
    ensures
        res@ == kind_name(k),
{
    match k {
        ParserKind::Line => "Line",
        ParserKind::Json => "JSON",
        ParserKind::ModbusRtu => "ModbusRTU",
    }
}

/// What a registry with these parsers and this active index yields for a
/// frame: the active parser's result, or `None` where the index is out of
/// range.
pub open spec fn registry_parse(kinds: Seq<ParserKind>, index: int, data: Seq<u8>) -> Option<Seq<char>> {
    if 0 <= index < kinds.len() {
        kind_parse(kinds[index], data)
    } else {
        None
    }
}

/// The index `next` moves to from `i` in a registry of `len` parsers.
pub open spec fn next_index(i: int, len: int) -> int {
    if len > 0 {
        (i + 1) % len
    } else {
        i
    }
}

/// The index after `k` calls of `next` from `i`.
pub open spec fn advanced(i: int, len: int, k: nat) -> int
    decreases k,
{
    if k == 0 {
        i
    } else {
        next_index(advanced(i, len, (k - 1) as nat), len)
    }
}

/// An ordered set of parsers, one of which is active.
pub struct ParserRegistry {
    pub parsers: Vec<ParserKind>,
    pub active_index: usize,
}

impl ParserRegistry {
    /// The parsers, in order.
    pub open spec fn kinds(&self) -> Seq<ParserKind> {
        self.parsers@
    }

    /// The parser that is active, if the index is in range.
    pub open spec fn active_kind(&self) -> Option<ParserKind> {
        if self.active_index < self.kinds().len() {
            Some(self.kinds()[self.active_index as int])
        } else {
            None
        }
    }

    /// What `parse` yields for a frame.
    pub open spec fn parse_spec(&self, data: Seq<u8>) -> Option<Seq<char>> {
        registry_parse(self.kinds(), self.active_index as int, data)
    }

    /// Line, JSON and Modbus RTU, with the line parser active.
    pub fn default_parsers() -> (res: Self)
        ensures
            res.kinds() == seq![ParserKind::Line, ParserKind::Json, ParserKind::ModbusRtu],
            res.active_index == 0,
    {
        let mut parsers: Vec<ParserKind> = Vec::new();
        parsers.push(ParserKind::Line);
        parsers.push(ParserKind::Json);
        parsers.push(ParserKind::ModbusRtu);
        let res = ParserRegistry { parsers, active_index: 0 };
        assert(res.kinds() =~= seq![ParserKind::Line, ParserKind::Json, ParserKind::ModbusRtu]);
        res
    }

    /// The name of the active parser, or `无` where the index is out of range.
    pub fn active_name(&self) -> (res: &str)
        ensures
            res@ == match self.active_kind() {
                Some(k) => kind_name(k),
                None => "\u{65e0}"@,
            },
    {
        if self.active_index < self.parsers.len() {
            parser_name(self.parsers[self.active_index])
        } else {
            "\u{65e0}"
        }
    }

    /// The names of all parsers, in order.
    pub fn names(&self) -> (res: Vec<String>)
        ensures
            res@.len() == self.kinds().len(),
            forall|i: int| 0 <= i < res@.len() ==> res@[i]@ == kind_name(#[trigger] self.kinds()[i]),
    {
        let mut res: Vec<String> = Vec::new();
        let n = self.parsers.len();
        let mut i: usize = 0;
        while i < n
            invariant
                n == self.kinds().len(),
                i <= n,
                res@.len() == i,
                forall|j: int| 0 <= j < i ==> res@[j]@ == kind_name(#[trigger] self.kinds()[j]),
            decreases n - i,
        {
            res.push(String::from_str(parser_name(self.parsers[i])));
            i = i + 1;
        }
        res
    }

    /// Makes the next parser active, wrapping around after the last.
    pub fn next(&mut self)
        requires
            old(self).kinds().len() > 0 ==> old(self).active_index < usize::MAX,
        ensures
            final(self).kinds() == old(self).kinds(),
            final(self).active_index == next_index(
                old(self).active_index as int,
                old(self).kinds().len() as int,
            ),
    {
        if self.parsers.len() > 0 {
            self.active_index = (self.active_index + 1) % self.parsers.len();
        }
    }

    /// Runs the active parser on a frame; `None` where it does not
    /// recognise the frame or no parser is active.
    pub fn parse(&self, data: &[u8]) -> (res: Option<String>)
        ensures
            opt_text(res) == self.parse_spec(data@),
    {
        if self.active_index < self.parsers.len() {
            run_parser(self.parsers[self.active_index], data)
        } else {
            None
        }
    }
}

/// From an active index in range, `k` calls of `next` move it `k` places
/// forward, wrapping around at the end.
pub proof fn lemma_advanced_is_offset(i: int, len: int, k: nat)
    requires
        0 <= i < len,
    ensures
        advanced(i, len, k) == (i + k) % len,
    decreases k,
{
    if k == 0 {
        vstd::arithmetic::div_mod::lemma_small_mod(i as nat, len as nat);
    } else {
        lemma_advanced_is_offset(i, len, (k - 1) as nat);
        vstd::arithmetic::div_mod::lemma_add_mod_noop(i + k - 1, 1, len);
        vstd::arithmetic::div_mod::lemma_mod_bound(i + k - 1, len);
        if len == 1 {
            assert(1int % 1 == 0);
        } else {
            vstd::arithmetic::div_mod::lemma_small_mod(1, len as nat);
        }
        vstd::arithmetic::div_mod::lemma_mod_bound(((i + k - 1) % len) + 1, len);
    }
}

/// How many calls of `next` lead from index `i` to index `j`.
pub open spec fn steps_between(i: int, j: int, len: int) -> nat {
    if j >= i { (j - i) as nat } else { (j - i + len) as nat }
}

/// Law: cycling with `next` keeps the active index in range, visits every
/// parser, and after as many steps as there are parsers returns to the
/// parser it started from.
pub proof fn law_next_cycles(i: int, len: int)
    requires
        0 <= i < len,
    ensures
        advanced(i, len, len as nat) == i,
        forall|k: nat| 0 <= #[trigger] advanced(i, len, k) < len,
        forall|j: int|
            0 <= j < len ==> steps_between(i, j, len) < len && #[trigger] advanced(
                i,
                len,
                steps_between(i, j, len),
            ) == j,
{
    lemma_advanced_is_offset(i, len, len as nat);
    vstd::arithmetic::div_mod::lemma_mod_add_multiples_vanish(i, len);
    vstd::arithmetic::div_mod::lemma_small_mod(i as nat, len as nat);
    assert forall|k: nat| 0 <= #[trigger] advanced(i, len, k) < len by {
        lemma_advanced_is_offset(i, len, k);
        vstd::arithmetic::div_mod::lemma_mod_bound(i + k, len);
    }
    assert forall|j: int| 0 <= j < len implies steps_between(i, j, len) < len && #[trigger] advanced(
        i,
        len,
        steps_between(i, j, len),
    ) == j by {
        let k = steps_between(i, j, len);
        lemma_advanced_is_offset(i, len, k);
        if j >= i {
            vstd::arithmetic::div_mod::lemma_small_mod(j as nat, len as nat);
        } else {
            vstd::arithmetic::div_mod::lemma_mod_add_multiples_vanish(j, len);
            vstd::arithmetic::div_mod::lemma_small_mod(j as nat, len as nat);
        }
        assert(advanced(i, len, k) == j);
    }
}

/// The names of a list of parsers, in order.
pub open spec fn kind_names(kinds: Seq<ParserKind>) -> Seq<Seq<char>> {
    kinds.map_values(|k: ParserKind| kind_name(k))
}

/// Law: the default registry names its parsers Line, JSON and ModbusRTU;
/// since `next` keeps the list, after any number of calls the names are
/// the same three, and the active parser is one of them.
pub proof fn law_default_names_survive_cycling(k: nat)
    ensures
        kind_names(seq![ParserKind::Line, ParserKind::Json, ParserKind::ModbusRtu])
            == seq!["Line"@, "JSON"@, "ModbusRTU"@],
        0 <= advanced(0, 3, k) < 3,
{
    assert(kind_names(seq![ParserKind::Line, ParserKind::Json, ParserKind::ModbusRtu])
        =~= seq!["Line"@, "JSON"@, "ModbusRTU"@]);
    law_next_cycles(0, 3);
    assert(0 <= advanced(0, 3, k) < 3);
}

} // verus!
