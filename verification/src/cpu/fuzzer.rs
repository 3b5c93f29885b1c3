use vstd::prelude::*;
use vstd::string::*;

use crate::cpu::encoder::{spec_encode_seq, Encoder, Encoding};
use crate::cpu::format::{hex_pad, push_char, push_hex};
use crate::cpu::instruction::{Instruction, InstructionView};

verus! {

/// The flags an instruction is known to change, one byte each: zero for
/// "not affected".
pub struct AffectedFlags {
    // ____ O___ SZ_A _P_C
    pub c: u8,  // 0: carry flag
    pub p: u8,  // 2: parity flag
    pub a: u8,  // 4: auxiliary carry flag (AF)
    pub z: u8,  // 6: zero flag
    pub s: u8,  // 7: sign flag
    pub o: u8,  // 11: overflow flag
}

/// The FLAGS bits of the affected flags.
pub open spec fn spec_mask(f: AffectedFlags) -> u16 {
    ((if f.c != 0 { 0x0001int } else { 0 }) + (if f.p != 0 { 0x0004int } else { 0 }) + (if f.a != 0 {
        0x0010int
    } else {
        0
    }) + (if f.z != 0 { 0x0040int } else { 0 }) + (if f.s != 0 { 0x0080int } else { 0 }) + (if f.o
        != 0 {
        0x0800int
    } else {
        0
    })) as u16
}

impl AffectedFlags {
    pub fn mask(&self) -> (r: u16)
        ensures
            r == spec_mask(*self),
    {
        let mut out: u16 = 0;
        if self.c != 0 {
            out = out + 0x0000_0001;
        }
        if self.p != 0 {
            out = out + 0x0000_0004;
        }
        if self.a != 0 {
            out = out + 0x0000_0010;
        }
        if self.z != 0 {
            out = out + 0x0000_0040;
        }
        if self.s != 0 {
            out = out + 0x0000_0080;
        }
        if self.o != 0 {
            out = out + 0x0000_0800;
        }
        out
    }
}

/// The encoding number of a general purpose register named in lower case.
pub open spec fn reg_name_index(s: Seq<char>) -> Option<usize> {
    if s == "al"@ || s == "ax"@ {
        Some(0)
    } else if s == "cl"@ || s == "cx"@ {
        Some(1)
    } else if s == "dl"@ || s == "dx"@ {
        Some(2)
    } else if s == "bl"@ || s == "bx"@ {
        Some(3)
    } else if s == "ah"@ || s == "sp"@ {
        Some(4)
    } else if s == "ch"@ || s == "bp"@ {
        Some(5)
    } else if s == "dh"@ || s == "si"@ {
        Some(6)
    } else if s == "bh"@ || s == "di"@ {
        Some(7)
    } else {
        None
    }
}

/// The encoding number of the 8- or 16-bit general purpose register `s`.
pub fn reg_str_to_index(s: &str) -> (r: usize)
    requires
        reg_name_index(s@) is Some,
    ensures
        r == reg_name_index(s@).unwrap(),
{
    proof {
        reveal_strlit("al");
        reveal_strlit("ax");
        reveal_strlit("cl");
        reveal_strlit("cx");
        reveal_strlit("dl");
        reveal_strlit("dx");
        reveal_strlit("bl");
        reveal_strlit("bx");
        reveal_strlit("ah");
        reveal_strlit("sp");
        reveal_strlit("ch");
        reveal_strlit("bp");
        reveal_strlit("dh");
        reveal_strlit("si");
        reveal_strlit("bh");
        reveal_strlit("di");
    }
    let c0 = s.get_char(0);
    let c1 = s.get_char(1);
    proof {
        assert(s@ =~= seq![c0, c1]);
    }
    if c0 == 'a' && c1 == 'l' || c0 == 'a' && c1 == 'x' {
        0
    } else if c0 == 'c' && c1 == 'l' || c0 == 'c' && c1 == 'x' {
        1
    } else if c0 == 'd' && c1 == 'l' || c0 == 'd' && c1 == 'x' {
        2
    } else if c0 == 'b' && c1 == 'l' || c0 == 'b' && c1 == 'x' {
        3
    } else if c0 == 'a' && c1 == 'h' || c0 == 's' && c1 == 'p' {
        4
    } else if c0 == 'c' && c1 == 'h' || c0 == 'b' && c1 == 'p' {
        5
    } else if c0 == 'd' && c1 == 'h' || c0 == 's' && c1 == 'i' {
        6
    } else {
        7
    }
}

/// Bytes as `0xNN` items separated by commas.
pub open spec fn db_items(b: Seq<u8>) -> Seq<char>
    decreases b.len(),
{
    if b.len() == 0 {
        seq![]
    } else if b.len() == 1 {
        "0x"@ + hex_pad(b[0] as nat, 2)
    } else {
        db_items(b.drop_last()) + ","@ + "0x"@ + hex_pad(b.last() as nat, 2)
    }
}

/// creates a "db 0x1,0x2..." representation of the encoded instructions
pub fn ops_as_db_bytes(ops: &[Instruction]) -> (r: String)
    requires
        spec_encode_seq(ops@.map_values(|i: Instruction| i@)) is Bytes,
    ensures
        r@ == "db "@ + db_items(spec_encode_seq(ops@.map_values(|i: Instruction| i@))->Bytes_0),
{
    let encoder = Encoder::new();
    proof {
        assert forall|k: int| 0 <= k < ops@.len() implies crate::cpu::encoder::encodable(#[trigger] ops@[k]@) by {
            lemma_encode_seq_defined(ops@.map_values(|i: Instruction| i@), k);
        }
    }
    let data = match encoder.encode_vec(ops) {
        Ok(data) => data,
        Err(_) => Vec::new(),
    };
    let mut s = String::new();
    s.append("db ");
    let ghost start = s@;
    let mut k: usize = 0;
    while k < data.len()
        invariant
            k <= data@.len(),
            start == "db "@,
            s@ == start + db_items(data@.subrange(0, k as int)),
        decreases data@.len() - k,
    {
        if k > 0 {
            s.append(",");
        }
        s.append("0x");
        push_hex(&mut s, data[k] as u64, 2);
        proof {
            assert(data@.subrange(0, k + 1).drop_last() =~= data@.subrange(0, k as int));
            if k == 0 {
                assert(db_items(data@.subrange(0, 0)) =~= Seq::<char>::empty());
                assert(s@ =~= start + db_items(data@.subrange(0, 1)));
            }
        }
        k = k + 1;
    }
    proof {
        assert(data@.subrange(0, data@.len() as int) =~= data@);
    }
    s
}

/// Where the encoding of a sequence succeeds, each instruction in it is one
/// the encoder is defined on.
proof fn lemma_encode_seq_defined(s: Seq<InstructionView>, k: int)
    requires
        spec_encode_seq(s) is Bytes,
        0 <= k < s.len(),
    ensures
        crate::cpu::encoder::encodable(s[k]),
    decreases s.len(),
{
    if k > 0 {
        assert(s.drop_first()[k - 1] == s[k]);
        if spec_encode_seq(s.drop_first()) is Bytes {
            lemma_encode_seq_defined(s.drop_first(), k - 1);
        }
    }
}

/// The value of a hexadecimal digit, if `c` is one (either case).
pub open spec fn hex_digit_value(c: char) -> Option<int> {
    if '0' <= c <= '9' {
        Some(c as int - '0' as int)
    } else if 'a' <= c <= 'f' {
        Some(c as int - 'a' as int + 10)
    } else if 'A' <= c <= 'F' {
        Some(c as int - 'A' as int + 10)
    } else {
        None
    }
}

/// The value of hexadecimal digits, `None` if one is no digit.
pub open spec fn digits_value(s: Seq<char>) -> Option<int>
    decreases s.len(),
{
    if s.len() == 0 {
        Some(0)
    } else {
        match (digits_value(s.drop_last()), hex_digit_value(s.last())) {
            (Some(v), Some(d)) => Some(v * 16 + d),
            _ => None,
        }
    }
}

/// What reading `s` as a hexadecimal 16-bit number gives: an optional
/// leading `+`, then at least one digit, and a value below 0x10000.
pub open spec fn parse_hex16(s: Seq<char>) -> Option<u16> {
    let d = if s.len() > 0 && s[0] == '+' { s.drop_first() } else { s };
    if d.len() == 0 {
        None
    } else {
        match digits_value(d) {
            Some(v) => if v <= 0xFFFF { Some(v as u16) } else { None },
            None => None,
        }
    }
}

/// The lines of `s`, split at each newline.
pub open spec fn split_lines(s: Seq<char>) -> Seq<Seq<char>>
    decreases s.len(),
{
    if s.len() == 0 {
        seq![seq![]]
    } else {
        let rest = split_lines(s.drop_last());
        if s.last() == '\n' {
            rest.push(seq![])
        } else {
            rest.update(rest.len() - 1, rest.last().push(s.last()))
        }
    }
}

/// The position of the first `=` in a line; -1 if it has none.
pub open spec fn find_eq(line: Seq<char>) -> int
    decreases line.len(),
{
    if line.len() == 0 {
        -1
    } else {
        let p = find_eq(line.drop_last());
        if p >= 0 {
            p
        } else if line.last() == '=' {
            line.len() - 1
        } else {
            -1
        }
    }
}

/// A register line `name=value` of the prober output; `None` for a line
/// without `=`.
pub open spec fn line_entry(line: Seq<char>) -> Option<(Seq<char>, u16)> {
    let p = find_eq(line);
    if p >= 0 {
        Some((line.subrange(0, p), parse_hex16(line.subrange(p + 1, line.len() as int)).unwrap()))
    } else {
        None
    }
}

/// Every `name=value` line holds a hexadecimal 16-bit value.
pub open spec fn line_ok(line: Seq<char>) -> bool {
    find_eq(line) >= 0 ==> parse_hex16(line.subrange(find_eq(line) + 1, line.len() as int)) is Some
}

/// The register entries of the lines, in order.
pub open spec fn entries_of(lines: Seq<Seq<char>>) -> Seq<(Seq<char>, u16)>
    decreases lines.len(),
{
    if lines.len() == 0 {
        seq![]
    } else {
        entries_of(lines.drop_last()) + match line_entry(lines.last()) {
            Some(e) => seq![e],
            None => seq![],
        }
    }
}

/// The number of characters of a string.
fn char_count(s: &str) -> (r: usize)
    ensures
        r == s@.len(),
{
    s.unicode_len()
}

/// Reads a hexadecimal 16-bit number.
fn parse_hex16_exec(d: &Vec<char>) -> (r: u16)
    requires
        parse_hex16(d@) is Some,
    ensures
        r == parse_hex16(d@).unwrap(),
{
    let mut k: usize = 0;
    if d.len() > 0 && d[0] == '+' {
        k = 1;
    }
    let ghost digits = if d@.len() > 0 && d@[0] == '+' { d@.drop_first() } else { d@ };
    let mut v: u32 = 0;
    while k < d.len()
        invariant
            k <= d@.len(),
            (d@.len() > 0 && d@[0] == '+') ==> 1 <= k,
            digits == if d@.len() > 0 && d@[0] == '+' { d@.drop_first() } else { d@ },
            digits_value(d@.subrange(d@.len() - digits.len(), k as int)) == Some(v as int),
            d@.len() - digits.len() <= k,
            v <= 0xFFFF,
            parse_hex16(d@) is Some,
        decreases d@.len() - k,
    {
        let c = d[k];
        let ghost pre = d@.subrange(d@.len() - digits.len(), k as int);
        let ghost next = d@.subrange(d@.len() - digits.len(), k + 1);
        proof {
            assert(next.drop_last() =~= pre);
            lemma_digits_prefix(digits, (k + 1 - (d@.len() - digits.len())) as int);
            assert(digits.subrange(0, k + 1 - (d@.len() - digits.len())) =~= next);
            assert(next.last() == c);
        }
        let dv: u32 = if '0' <= c && c <= '9' {
            (c as u32) - ('0' as u32)
        } else if 'a' <= c && c <= 'f' {
            (c as u32) - ('a' as u32) + 10
        } else {
            (c as u32) - ('A' as u32) + 10
        };
        v = v * 16 + dv;
        k = k + 1;
    }
    proof {
        assert(d@.subrange(d@.len() - digits.len(), d@.len() as int) =~= digits);
    }
    v as u16
}

/// The digits of a prefix of valid digits are valid, and their value is no
/// larger than that of all of them.
proof fn lemma_digits_prefix(s: Seq<char>, n: int)
    requires
        digits_value(s) is Some,
        0 <= n <= s.len(),
    ensures
        digits_value(s.subrange(0, n)) is Some,
        digits_value(s.subrange(0, n)).unwrap() <= digits_value(s).unwrap(),
        n >= 1 ==> hex_digit_value(s[n - 1]) is Some,
    decreases s.len(),
{
    if n < s.len() {
        assert(s.drop_last().subrange(0, n) =~= s.subrange(0, n));
        lemma_digits_prefix(s.drop_last(), n);
        if n >= 1 {
            assert(s.drop_last()[n - 1] == s[n - 1]);
        }
        lemma_digits_nonneg(s.drop_last());
    } else {
        assert(s.subrange(0, n) =~= s);
        if n >= 1 {
            assert(s.last() == s[n - 1]);
        }
    }
}

proof fn lemma_digits_nonneg(s: Seq<char>)
    requires
        digits_value(s) is Some,
    ensures
        digits_value(s).unwrap() >= 0,
    decreases s.len(),
{
    if s.len() > 0 {
        lemma_digits_nonneg(s.drop_last());
    }
}

/// The lines of a prefix of `s`: all but the last are lines of `s`, and the
/// last begins a line of `s`.
proof fn lemma_split_prefix(s: Seq<char>, i: int)
    requires
        0 <= i <= s.len(),
    ensures
        ({
            let p = split_lines(s.subrange(0, i));
            let f = split_lines(s);
            &&& 1 <= p.len() <= f.len()
            &&& forall|j: int| 0 <= j < p.len() - 1 ==> #[trigger] p[j] == f[j]
            &&& p.last().len() <= f[p.len() - 1].len()
            &&& f[p.len() - 1].subrange(0, p.last().len() as int) == p.last()
        }),
    decreases s.len(),
{
    lemma_split_len(s);
    if i == s.len() {
        assert(s.subrange(0, i) =~= s);
        let f = split_lines(s);
        assert(f.last().subrange(0, f.last().len() as int) =~= f.last());
    } else {
        let t = s.drop_last();
        assert(t.subrange(0, i) =~= s.subrange(0, i));
        lemma_split_prefix(t, i);
        lemma_split_len(t);
        let p = split_lines(s.subrange(0, i));
        let g = split_lines(t);
        let f = split_lines(s);
        let idx = p.len() - 1;
        if idx < g.len() - 1 {
            assert(f[idx] == g[idx]);
        } else {
            if s.last() != '\n' {
                assert(f[idx] == g.last().push(s.last()));
                assert(f[idx].subrange(0, p.last().len() as int) =~= g.last().subrange(0, p.last().len() as int));
            }
        }
    }
}

/// A text has at least one line.
proof fn lemma_split_len(s: Seq<char>)
    ensures
        split_lines(s).len() >= 1,
    decreases s.len(),
{
    if s.len() > 0 {
        lemma_split_len(s.drop_last());
    }
}

/// The index of the first `=` in a line, or -1.
fn find_eq_exec(line: &Vec<char>) -> (r: i64)
    requires
        line@.len() < 0x1000_0000,
    ensures
        r == find_eq(line@),
{
    let mut k: usize = 0;
    while k < line.len()
        invariant
            k <= line@.len(),
            line@.len() < 0x1000_0000,
            find_eq(line@.subrange(0, k as int)) == -1,
        decreases line@.len() - k,
    {
        proof {
            assert(line@.subrange(0, k + 1).drop_last() =~= line@.subrange(0, k as int));
        }
        if line[k] == '=' {
            proof {
                lemma_find_eq_extend(line@, (k + 1) as int);
            }
            return k as i64;
        }
        k = k + 1;
    }
    proof {
        assert(line@.subrange(0, line@.len() as int) =~= line@);
    }
    -1
}

/// Once a prefix holds an `=`, the first one stays where it is.
proof fn lemma_find_eq_extend(s: Seq<char>, n: int)
    requires
        0 <= n <= s.len(),
        find_eq(s.subrange(0, n)) >= 0,
    ensures
        find_eq(s) == find_eq(s.subrange(0, n)),
    decreases s.len() - n,
{
    if n < s.len() {
        assert(s.subrange(0, n + 1).drop_last() =~= s.subrange(0, n));
        lemma_find_eq_extend(s, n + 1);
    } else {
        assert(s.subrange(0, n) =~= s);
    }
}

/// The register entry of one line, if it has one.
fn line_entry_exec(line: &Vec<char>) -> (r: Option<(String, u16)>)
    requires
        line_ok(line@),
        line@.len() < 0x1000_0000,
    ensures
        match r {
            Some(e) => line_entry(line@) == Some((e.0@, e.1)),
            None => line_entry(line@) is None,
        },
{
    let p = find_eq_exec(line);
    if p < 0 {
        return None;
    }
    proof {
        lemma_find_eq_range(line@);
    }
    let p = p as usize;
    let mut key = String::new();
    let mut k: usize = 0;
    while k < p
        invariant
            k <= p,
            p < line@.len(),
            key@ == line@.subrange(0, k as int),
        decreases p - k,
    {
        push_char(&mut key, line[k]);
        proof {
            assert(line@.subrange(0, k + 1) =~= line@.subrange(0, k as int).push(line@[k as int]));
        }
        k = k + 1;
    }
    let mut rest: Vec<char> = Vec::new();
    let mut j: usize = p + 1;
    while j < line.len()
        invariant
            p < j <= line@.len(),
            rest@ == line@.subrange(p + 1, j as int),
        decreases line@.len() - j,
    {
        rest.push(line[j]);
        proof {
            assert(line@.subrange(p + 1, j + 1) =~= line@.subrange(p + 1, j as int).push(line@[j as int]));
        }
        j = j + 1;
    }
    let v = parse_hex16_exec(&rest);
    Some((key, v))
}

/// The first `=` lies within the line.
proof fn lemma_find_eq_range(s: Seq<char>)
    ensures
        find_eq(s) < s.len(),
        find_eq(s) >= 0 ==> s[find_eq(s)] == '=',
    decreases s.len(),
{
    if s.len() > 0 {
        lemma_find_eq_range(s.drop_last());
        if find_eq(s.drop_last()) >= 0 {
            assert(s.drop_last()[find_eq(s.drop_last())] == s[find_eq(s.drop_last())]);
        }
    }
}

/// The register values that the prober printed, one `name=value` line each
/// (value in hexadecimal), in the order of the lines.
pub fn prober_reg_map(stdout: &str) -> (r: Vec<(String, u16)>)
    requires
        forall|k: int| 0 <= k < split_lines(stdout@).len() ==> line_ok(#[trigger] split_lines(stdout@)[k]),
        stdout@.len() < 0x1000_0000,
    ensures
        r@.map_values(|e: (String, u16)| (e.0@, e.1)) == entries_of(split_lines(stdout@)),
{
    let n = char_count(stdout);
    let ghost s = stdout@;
    let mut out: Vec<(String, u16)> = Vec::new();
    let mut line: Vec<char> = Vec::new();
    let mut i: usize = 0;
    while i < n
        invariant
            n == s.len(),
            s == stdout@,
            s.len() < 0x1000_0000,
            i <= n,
            forall|k: int| 0 <= k < split_lines(s).len() ==> line_ok(#[trigger] split_lines(s)[k]),
            line@ == split_lines(s.subrange(0, i as int)).last(),
            line@.len() <= i,
            out@.map_values(|e: (String, u16)| (e.0@, e.1)) == entries_of(split_lines(s.subrange(0, i as int)).drop_last()),
        decreases n - i,
    {
        let c = stdout.get_char(i);
        let ghost pre = s.subrange(0, i as int);
        let ghost next = s.subrange(0, i + 1);
        proof {
            assert(next.drop_last() =~= pre);
            assert(next.last() == c);
            lemma_split_len(pre);
        }
        if c == '\n' {
            proof {
                lemma_split_prefix(s, i + 1);
                let q = split_lines(next);
                assert(q =~= split_lines(pre).push(seq![]));
                assert(q[q.len() - 2] == line@);
                assert(line_ok(split_lines(s)[q.len() - 2]));
            }
            let e = line_entry_exec(&line);
            match e {
                Some(e) => out.push(e),
                None => {},
            }
            proof {
                let q = split_lines(next);
                assert(q.drop_last() =~= split_lines(pre));
                let a = split_lines(pre);
                assert(a =~= a.drop_last().push(a.last()));
                assert(out@.map_values(|e: (String, u16)| (e.0@, e.1)) =~= entries_of(q.drop_last()));
            }
            line = Vec::new();
            proof {
                assert(line@ =~= split_lines(next).last());
            }
        } else {
            line.push(c);
            proof {
                let a = split_lines(pre);
                let q = split_lines(next);
                assert(q == a.update(a.len() - 1, a.last().push(c)));
                assert(q.drop_last() =~= a.drop_last());
            }
        }
        i = i + 1;
    }
    proof {
        assert(s.subrange(0, n as int) =~= s);
        lemma_split_len(s);
        let f = split_lines(s);
        assert(line_ok(f[f.len() - 1]));
    }
    let e = line_entry_exec(&line);
    match e {
        Some(e) => out.push(e),
        None => {},
    }
    proof {
        let f = split_lines(s);
        assert(f =~= f.drop_last().push(f.last()));
        assert(out@.map_values(|e: (String, u16)| (e.0@, e.1)) =~= entries_of(f));
    }
    out
}

/// A run of spaces begins at position `k` of `s`.
pub open spec fn run_starts_at(s: Seq<char>, k: int) -> bool {
    0 <= k < s.len() && s[k] == ' ' && (k == 0 || s[k - 1] != ' ')
}

/// The number of runs of spaces that begin before position `i` of `s`.
pub open spec fn runs_before(s: Seq<char>, i: int) -> nat
    decreases i,
{
    if i <= 0 {
        0
    } else {
        runs_before(s, i - 1) + if run_starts_at(s, i - 1) {
            1nat
        } else {
            0nat
        }
    }
}

/// The run of spaces that ends the second column begins at `k`.
pub open spec fn second_run_at(s: Seq<char>, k: int) -> bool {
    run_starts_at(s, k) && runs_before(s, k) == 1
}

/// The third column of a line of `ndisasm` output ("00000000  CD21  int
/// 0x21"): everything from the run of spaces that ends the second column
/// on, those spaces included; nothing where the line has no such run.
pub open spec fn third_column_text(s: Seq<char>) -> Seq<char> {
    if exists|k: int| second_run_at(s, k) {
        s.subrange(choose|k: int| second_run_at(s, k), s.len() as int)
    } else {
        seq![]
    }
}

/// A run that begins at `i` is counted before every later position.
proof fn lemma_runs_grow(s: Seq<char>, i: int, j: int)
    requires
        0 <= i < j,
    ensures
        runs_before(s, j) >= runs_before(s, i) + if run_starts_at(s, i) {
            1nat
        } else {
            0nat
        },
    decreases j - i,
{
    if j > i + 1 {
        lemma_runs_grow(s, i, j - 1);
    }
}

/// The third column of a line of `ndisasm` output, the spaces before it
/// included.
pub fn third_column(s: &str) -> (r: String)
    ensures
        r@ == third_column_text(s@),
{
    let n = char_count(s);
    let mut col: u8 = 0;
    let mut spacing = false;
    let mut res = String::new();
    let mut i: usize = 0;
    let ghost mut start: int = 0;
    while i < n
        invariant
            n == s@.len(),
            i <= n,
            col <= 2,
            col < 2 ==> col == runs_before(s@, i as int),
            col < 2 ==> spacing == (i > 0 && s@[i - 1] == ' '),
            col < 2 ==> res@ == Seq::<char>::empty(),
            col == 2 ==> runs_before(s@, i as int) >= 2,
            col == 2 ==> second_run_at(s@, start) && start < i && res@ == s@.subrange(start, i as int),
        decreases n - i,
    {
        let c = s.get_char(i);
        let ghost old_col = col;
        if c == ' ' {
            if !spacing && col < 2 {
                col = col + 1;
                spacing = true;
            }
        } else {
            spacing = false;
        }
        proof {
            if old_col == 2 {
                lemma_runs_grow(s@, i as int, i + 1);
            }
            if old_col < 2 && col == 2 {
                start = i as int;
            }
        }
        if col == 2 {
            push_char(&mut res, c);
            proof {
                assert(res@ =~= s@.subrange(start, i + 1));
            }
        }
        i = i + 1;
    }
    proof {
        if col == 2 {
            assert forall|k: int| second_run_at(s@, k) implies k == start by {
                if k < start {
                    lemma_runs_grow(s@, k, start);
                } else if start < k {
                    lemma_runs_grow(s@, start, k);
                }
            }
        } else {
            assert forall|k: int| !second_run_at(s@, k) by {
                if second_run_at(s@, k) {
                    if k + 1 < n {
                        lemma_runs_grow(s@, k + 1, n as int);
                    }
                    assert(runs_before(s@, k + 1) == 2);
                }
            }
        }
    }
    res
}

} // verus!
