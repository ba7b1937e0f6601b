//! The persisted configuration record: its default value, its canonical
//! on-disk text form, and the verified reader and writer of that form.

use vstd::prelude::*;
use crate::error::Error;
use crate::text::dec_digits;
use crate::text::digit_run_end;
use crate::text::has_at;
use crate::text::is_digit;
use crate::text::lemma_num_val_of_dec;
use crate::text::lemma_run_end_of;
use crate::text::num_at;
use crate::text::num_rejected;
use crate::text::occurs_at;
use crate::text::parse_num_at;
use crate::text::u32_to_string;

verus! {

/// The target device's network address, as four dotted-quad octets.
#[derive(Clone, Copy, PartialEq, Eq, Structural, Debug)]
pub struct IpAddress {
    pub a: u8,
    pub b: u8,
    pub c: u8,
    pub d: u8,
}

/// The persisted user record: the device address and the volume step
/// applied per volume command.
#[derive(Clone, Copy, PartialEq, Eq, Structural, Debug)]
pub struct Config {
    pub ip: IpAddress,
    pub step: u8,
}

/// The dotted-quad text of an address, each octet in canonical decimal.
pub open spec fn ip_text(ip: IpAddress) -> Seq<char> {
    dec_digits(ip.a as nat) + "."@ + dec_digits(ip.b as nat) + "."@ + dec_digits(ip.c as nat)
        + "."@ + dec_digits(ip.d as nat)
}

/// The canonical text form of a configuration record: one `ip` line with
/// a quoted dotted-quad, one `step` line with a decimal, as the writer
/// lays it out.
pub open spec fn config_text(c: Config) -> Seq<char> {
    "ip = \""@ + ip_text(c.ip) + "\"\nstep = "@ + dec_digits(c.step as nat) + "\n"@
}

impl Config {
    /// A record is well-formed when its step is positive.
    pub open spec fn wf(self) -> bool {
        self.step >= 1
    }

    /// The hard-coded default record: the fallback device address and a
    /// step of one.
    pub open spec fn default_spec() -> Config {
        Config { ip: IpAddress { a: 192, b: 168, c: 1, d: 105 }, step: 1 }
    }

    /// Renders this record in its canonical text form.
    pub fn render(&self) -> (r: String)
        ensures
            r@ == config_text(*self),
    {
        let mut s = String::from_str("ip = \"");
        s.append(u32_to_string(self.ip.a as u32).as_str());
        s.append(".");
        s.append(u32_to_string(self.ip.b as u32).as_str());
        s.append(".");
        s.append(u32_to_string(self.ip.c as u32).as_str());
        s.append(".");
        s.append(u32_to_string(self.ip.d as u32).as_str());
        s.append("\"\nstep = ");
        s.append(u32_to_string(self.step as u32).as_str());
        s.append("\n");
        proof {
            assert(s@ =~= config_text(*self));
        }
        s
    }

    /// The text that `create-config` persists: the default record,
    /// rendered wholesale; any previous file contents are replaced.
    pub fn write() -> (r: String)
        ensures
            r@ == config_text(Config::default_spec()),
    {
        let c = Config { ip: IpAddress { a: 192, b: 168, c: 1, d: 105 }, step: 1 };
        proof {
            assert(c == Config::default_spec());
        }
        c.render()
    }

    /// The application's directory under the platform configuration root.
    pub fn dir_path(root: &str) -> (r: String)
        ensures
            r@ == root@ + "/ssc"@,
    {
        let s = root.to_owned();
        s.concat("/ssc")
    }

    /// The config file's path under the platform configuration root.
    pub fn path(root: &str) -> (r: String)
        ensures
            r@ == root@ + "/ssc/Config.toml"@,
    {
        let s = root.to_owned();
        s.concat("/ssc/Config.toml")
    }

    /// Deserializes a record from the file text.  Succeeds exactly on the
    /// canonical text of a well-formed record, and returns that record.
    pub fn read(text: &str) -> (r: Result<Config, Error>)
        ensures
            match r {
                Ok(c) => c.wf() && text@ == config_text(c),
                Err(e) => e == Error::Deserialization,
            },
            forall|c: Config| c.wf() && text@ == config_text(c) ==> r == Ok::<Config, Error>(c),
    {
        let sl = text.unicode_len();
        proof {
            reveal_strlit("ip = \"");
            reveal_strlit("\"\nstep = ");
            reveal_strlit(".");
            reveal_strlit("\n");
        }
        if !has_at(text, 0, "ip = \"") {
            proof {
                assert forall|c: Config| c.wf() && text@ == config_text(c) implies false by {
                    lemma_head_occurs(text@, c);
                }
            }
            return Err(Error::Deserialization);
        }
        let pa = parse_num_at(text, 6);
        if pa.is_none() {
            proof {
                assert forall|c: Config| c.wf() && text@ == config_text(c) implies false by {
                    lemma_run_accepted(text@, c, 0);
                }
            }
            return Err(Error::Deserialization);
        }
        let (a, ja) = pa.unwrap();
        if a > 255 || !has_at(text, ja, ".") {
            proof {
                assert forall|c: Config| c.wf() && text@ == config_text(c) implies false by {
                    lemma_forced_field(text@, c, 0, a as nat, ja as int);
                }
            }
            return Err(Error::Deserialization);
        }
        let pb = parse_num_at(text, ja + 1);
        if pb.is_none() {
            proof {
                assert forall|c: Config| c.wf() && text@ == config_text(c) implies false by {
                    lemma_forced_field(text@, c, 0, a as nat, ja as int);
                    lemma_run_accepted(text@, c, 1);
                }
            }
            return Err(Error::Deserialization);
        }
        let (b, jb) = pb.unwrap();
        if b > 255 || !has_at(text, jb, ".") {
            proof {
                assert forall|c: Config| c.wf() && text@ == config_text(c) implies false by {
                    lemma_forced_field(text@, c, 0, a as nat, ja as int);
                    lemma_forced_field(text@, c, 1, b as nat, jb as int);
                }
            }
            return Err(Error::Deserialization);
        }
        let pc = parse_num_at(text, jb + 1);
        if pc.is_none() {
            proof {
                assert forall|c: Config| c.wf() && text@ == config_text(c) implies false by {
                    lemma_forced_field(text@, c, 0, a as nat, ja as int);
                    lemma_forced_field(text@, c, 1, b as nat, jb as int);
                    lemma_run_accepted(text@, c, 2);
                }
            }
            return Err(Error::Deserialization);
        }
        let (cc, jc) = pc.unwrap();
        if cc > 255 || !has_at(text, jc, ".") {
            proof {
                assert forall|c: Config| c.wf() && text@ == config_text(c) implies false by {
                    lemma_forced_field(text@, c, 0, a as nat, ja as int);
                    lemma_forced_field(text@, c, 1, b as nat, jb as int);
                    lemma_forced_field(text@, c, 2, cc as nat, jc as int);
                }
            }
            return Err(Error::Deserialization);
        }
        let pd = parse_num_at(text, jc + 1);
        if pd.is_none() {
            proof {
                assert forall|c: Config| c.wf() && text@ == config_text(c) implies false by {
                    lemma_forced_field(text@, c, 0, a as nat, ja as int);
                    lemma_forced_field(text@, c, 1, b as nat, jb as int);
                    lemma_forced_field(text@, c, 2, cc as nat, jc as int);
                    lemma_run_accepted(text@, c, 3);
                }
            }
            return Err(Error::Deserialization);
        }
        let (d, jd) = pd.unwrap();
        if d > 255 || !has_at(text, jd, "\"\nstep = ") {
            proof {
                assert forall|c: Config| c.wf() && text@ == config_text(c) implies false by {
                    lemma_forced_field(text@, c, 0, a as nat, ja as int);
                    lemma_forced_field(text@, c, 1, b as nat, jb as int);
                    lemma_forced_field(text@, c, 2, cc as nat, jc as int);
                    lemma_forced_field(text@, c, 3, d as nat, jd as int);
                }
            }
            return Err(Error::Deserialization);
        }
        let ps = parse_num_at(text, jd + 9);
        if ps.is_none() {
            proof {
                assert forall|c: Config| c.wf() && text@ == config_text(c) implies false by {
                    lemma_forced_field(text@, c, 0, a as nat, ja as int);
                    lemma_forced_field(text@, c, 1, b as nat, jb as int);
                    lemma_forced_field(text@, c, 2, cc as nat, jc as int);
                    lemma_forced_field(text@, c, 3, d as nat, jd as int);
                    lemma_run_accepted(text@, c, 4);
                }
            }
            return Err(Error::Deserialization);
        }
        let (st, js) = ps.unwrap();
        if st < 1 || st > 255 || !has_at(text, js, "\n") || js + 1 != sl {
            proof {
                assert forall|c: Config| c.wf() && text@ == config_text(c) implies false by {
                    lemma_forced_field(text@, c, 0, a as nat, ja as int);
                    lemma_forced_field(text@, c, 1, b as nat, jb as int);
                    lemma_forced_field(text@, c, 2, cc as nat, jc as int);
                    lemma_forced_field(text@, c, 3, d as nat, jd as int);
                    lemma_forced_field(text@, c, 4, st as nat, js as int);
                }
            }
            return Err(Error::Deserialization);
        }
        let out = Config {
            ip: IpAddress { a: a as u8, b: b as u8, c: cc as u8, d: d as u8 },
            step: st as u8,
        };
        proof {
            lemma_read_sound(text@, out, ja as int, jb as int, jc as int, jd as int, js as int);
            assert forall|c: Config| c.wf() && text@ == config_text(c) implies c == out by {
                lemma_forced_field(text@, c, 0, a as nat, ja as int);
                lemma_forced_field(text@, c, 1, b as nat, jb as int);
                lemma_forced_field(text@, c, 2, cc as nat, jc as int);
                lemma_forced_field(text@, c, 3, d as nat, jd as int);
                lemma_forced_field(text@, c, 4, st as nat, js as int);
            }
        }
        Ok(out)
    }
}

impl Default for Config {
    /// The default record: address 192.168.1.105, step 1.
    fn default() -> (r: Config)
        ensures
            r == Config::default_spec(),
    {
        Config { ip: IpAddress { a: 192, b: 168, c: 1, d: 105 }, step: 1 }
    }
}

/// A record is recoverable from its canonical text: two records with the
/// same text are the same record, so reading back a written record can
/// yield nothing but that record.
#[verifier::rlimit(100)]
pub proof fn lemma_config_text_injective(c1: Config, c2: Config)
    requires
        config_text(c1) == config_text(c2),
    ensures
        c1 == c2,
{
    let t = config_text(c1);
    lemma_config_text_shape(c2);
    lemma_num_val_of_dec(c2.ip.a as nat);
    lemma_num_val_of_dec(c2.ip.b as nat);
    lemma_num_val_of_dec(c2.ip.c as nat);
    lemma_num_val_of_dec(c2.ip.d as nat);
    lemma_num_val_of_dec(c2.step as nat);
    let la = dec_digits(c2.ip.a as nat).len() as int;
    let lb = dec_digits(c2.ip.b as nat).len() as int;
    let lc = dec_digits(c2.ip.c as nat).len() as int;
    let ld = dec_digits(c2.ip.d as nat).len() as int;
    let ls = dec_digits(c2.step as nat).len() as int;
    lemma_forced_field(t, c1, 0, c2.ip.a as nat, 6 + la);
    lemma_forced_field(t, c1, 1, c2.ip.b as nat, 7 + la + lb);
    lemma_forced_field(t, c1, 2, c2.ip.c as nat, 8 + la + lb + lc);
    lemma_forced_field(t, c1, 3, c2.ip.d as nat, 9 + la + lb + lc + ld);
    lemma_forced_field(t, c1, 4, c2.step as nat, 18 + la + lb + lc + ld + ls);
}

/// The position where the `k`-th number of the record stands in its text
/// (the four octets, then the step).
spec fn field_pos(c: Config, k: int) -> int {
    let la = dec_digits(c.ip.a as nat).len() as int;
    let lb = dec_digits(c.ip.b as nat).len() as int;
    let lc = dec_digits(c.ip.c as nat).len() as int;
    let ld = dec_digits(c.ip.d as nat).len() as int;
    if k == 0 {
        6
    } else if k == 1 {
        7 + la
    } else if k == 2 {
        8 + la + lb
    } else if k == 3 {
        9 + la + lb + lc
    } else {
        18 + la + lb + lc + ld
    }
}

/// The `k`-th number of the record (the four octets, then the step).
spec fn field_val(c: Config, k: int) -> nat {
    if k == 0 {
        c.ip.a as nat
    } else if k == 1 {
        c.ip.b as nat
    } else if k == 2 {
        c.ip.c as nat
    } else if k == 3 {
        c.ip.d as nat
    } else {
        c.step as nat
    }
}

/// The separator text that follows the `k`-th number of the record.
spec fn field_sep(k: int) -> Seq<char> {
    if 0 <= k <= 2 {
        "."@
    } else if k == 3 {
        "\"\nstep = "@
    } else {
        "\n"@
    }
}

/// The text of a record opens with its `ip` line.
proof fn lemma_head_occurs(t: Seq<char>, c: Config)
    requires
        t == config_text(c),
    ensures
        occurs_at(t, 0, "ip = \""@),
{
    lemma_config_text_shape(c);
}

/// The text of a record cannot fail the read of its `k`-th number: the
/// digit run there is delimited, short and has no leading zero.
proof fn lemma_run_accepted(t: Seq<char>, c: Config, k: int)
    requires
        t == config_text(c),
        0 <= k <= 4,
    ensures
        !num_rejected(t, field_pos(c, k)),
{
    lemma_config_text_shape(c);
    lemma_not_none(t, field_pos(c, k), field_val(c, k));
}

/// A read of the `k`-th number out of the text of a record is forced: it
/// reports the record's own value, the separator follows it, and the next
/// number (or the text's end) stands where the reader continues.
proof fn lemma_forced_field(t: Seq<char>, c: Config, k: int, m: nat, j: int)
    requires
        t == config_text(c),
        0 <= k <= 4,
        num_at(t, field_pos(c, k), m, j),
    ensures
        m == field_val(c, k),
        m <= 255,
        occurs_at(t, j, field_sep(k)),
        k <= 2 ==> field_pos(c, k + 1) == j + 1,
        k == 3 ==> field_pos(c, 4) == j + 9,
        k == 4 ==> j + 1 == t.len(),
{
    lemma_config_text_shape(c);
    lemma_forced_num(t, field_pos(c, k), field_val(c, k), m, j);
}

/// When the text at position `i` is the rendering of `n < 1000` followed
/// by a non-digit, the digit run at `i` is short, delimited, and free of a
/// leading zero: no ground on which `parse_num_at` may fail there.
proof fn lemma_not_none(t: Seq<char>, i: int, n: nat)
    requires
        0 <= i,
        n < 1000,
        occurs_at(t, i, dec_digits(n)),
        i + dec_digits(n).len() == t.len() || !is_digit(t[i + dec_digits(n).len()]),
    ensures
        digit_run_end(t, i) == i + dec_digits(n).len(),
        1 <= digit_run_end(t, i) - i <= 3,
        !(digit_run_end(t, i) - i > 1 && t[i] == '0'),
{
    lemma_num_val_of_dec(n);
    lemma_run_of_digits(t, i, dec_digits(n));
    crate::text::lemma_subrange_points(t, i, dec_digits(n));
    if dec_digits(n).len() > 1 {
        assert(n >= 1) by {
            if n < 10 {
                assert(dec_digits(n).len() == 1);
            }
        }
        assert(t[i] == dec_digits(n)[0]);
    }
}

/// When the text at position `i` is the rendering of `n` followed by a
/// non-digit, the digit run there is forced: any parse at `i` that reports
/// the run's end reports `n` and the run's length.
proof fn lemma_forced_num(t: Seq<char>, i: int, n: nat, m: nat, j: int)
    requires
        0 <= i,
        occurs_at(t, i, dec_digits(n)),
        i + dec_digits(n).len() == t.len() || !is_digit(t[i + dec_digits(n).len()]),
        occurs_at(t, i, dec_digits(m)),
        j == i + dec_digits(m).len(),
        j == digit_run_end(t, i),
    ensures
        m == n,
        j == i + dec_digits(n).len(),
{
    lemma_num_val_of_dec(n);
    lemma_num_val_of_dec(m);
    crate::text::lemma_subrange_points(t, i, dec_digits(n));
    crate::text::lemma_subrange_points(t, i, dec_digits(m));
    assert forall|k: int| i <= k < i + dec_digits(n).len() implies is_digit(t[k]) by {
        assert(t[k] == dec_digits(n)[k - i]);
    }
    lemma_run_end_of(t, i, i + dec_digits(n).len() as int);
    if dec_digits(n).len() <= dec_digits(m).len() {
        assert(dec_digits(n) =~= dec_digits(m));
    } else {
        assert(dec_digits(n) =~= dec_digits(m));
    }
}

/// Assembling the pieces that a successful read established gives back
/// exactly the record's canonical text.
proof fn lemma_read_sound(t: Seq<char>, c: Config, ja: int, jb: int, jc: int, jd: int, js: int)
    requires
        occurs_at(t, 0, "ip = \""@),
        num_at(t, 6, c.ip.a as nat, ja),
        occurs_at(t, ja, "."@),
        num_at(t, ja + 1, c.ip.b as nat, jb),
        occurs_at(t, jb, "."@),
        num_at(t, jb + 1, c.ip.c as nat, jc),
        occurs_at(t, jc, "."@),
        num_at(t, jc + 1, c.ip.d as nat, jd),
        occurs_at(t, jd, "\"\nstep = "@),
        num_at(t, jd + 9, c.step as nat, js),
        occurs_at(t, js, "\n"@),
        js + 1 == t.len(),
    ensures
        t == config_text(c),
{
    reveal_strlit("ip = \"");
    reveal_strlit("\"\nstep = ");
    reveal_strlit(".");
    reveal_strlit("\n");
    crate::text::lemma_subrange_points(t, 0, "ip = \""@);
    crate::text::lemma_subrange_points(t, 6, dec_digits(c.ip.a as nat));
    crate::text::lemma_subrange_points(t, ja, "."@);
    crate::text::lemma_subrange_points(t, ja + 1, dec_digits(c.ip.b as nat));
    crate::text::lemma_subrange_points(t, jb, "."@);
    crate::text::lemma_subrange_points(t, jb + 1, dec_digits(c.ip.c as nat));
    crate::text::lemma_subrange_points(t, jc, "."@);
    crate::text::lemma_subrange_points(t, jc + 1, dec_digits(c.ip.d as nat));
    crate::text::lemma_subrange_points(t, jd, "\"\nstep = "@);
    crate::text::lemma_subrange_points(t, jd + 9, dec_digits(c.step as nat));
    crate::text::lemma_subrange_points(t, js, "\n"@);
    assert(t =~= config_text(c));
}

/// How the canonical text of a record decomposes: where each literal and
/// each digit run stands, that each digit run is delimited, and that no
/// read of one of its numbers has a ground to fail.
proof fn lemma_config_text_shape(c: Config)
    ensures
        ({
            let t = config_text(c);
            let la = dec_digits(c.ip.a as nat).len() as int;
            let lb = dec_digits(c.ip.b as nat).len() as int;
            let lc = dec_digits(c.ip.c as nat).len() as int;
            let ld = dec_digits(c.ip.d as nat).len() as int;
            let ls = dec_digits(c.step as nat).len() as int;
            &&& t.len() == 19 + la + lb + lc + ld + ls
            &&& occurs_at(t, 0, "ip = \""@)
            &&& occurs_at(t, 6, dec_digits(c.ip.a as nat))
            &&& occurs_at(t, 6 + la, "."@)
            &&& occurs_at(t, 7 + la, dec_digits(c.ip.b as nat))
            &&& occurs_at(t, 7 + la + lb, "."@)
            &&& occurs_at(t, 8 + la + lb, dec_digits(c.ip.c as nat))
            &&& occurs_at(t, 8 + la + lb + lc, "."@)
            &&& occurs_at(t, 9 + la + lb + lc, dec_digits(c.ip.d as nat))
            &&& occurs_at(t, 9 + la + lb + lc + ld, "\"\nstep = "@)
            &&& occurs_at(t, 18 + la + lb + lc + ld, dec_digits(c.step as nat))
            &&& occurs_at(t, 18 + la + lb + lc + ld + ls, "\n"@)
            &&& !is_digit(t[6 + la])
            &&& !is_digit(t[7 + la + lb])
            &&& !is_digit(t[8 + la + lb + lc])
            &&& !is_digit(t[9 + la + lb + lc + ld])
            &&& !is_digit(t[18 + la + lb + lc + ld + ls])
            &&& digit_run_end(t, 6) == 6 + la
            &&& digit_run_end(t, 7 + la) == 7 + la + lb
            &&& digit_run_end(t, 8 + la + lb) == 8 + la + lb + lc
            &&& digit_run_end(t, 9 + la + lb + lc) == 9 + la + lb + lc + ld
            &&& digit_run_end(t, 18 + la + lb + lc + ld) == 18 + la + lb + lc + ld + ls
        }),
{
    reveal_strlit("ip = \"");
    reveal_strlit("\"\nstep = ");
    reveal_strlit(".");
    reveal_strlit("\n");
    lemma_num_val_of_dec(c.ip.a as nat);
    lemma_num_val_of_dec(c.ip.b as nat);
    lemma_num_val_of_dec(c.ip.c as nat);
    lemma_num_val_of_dec(c.ip.d as nat);
    lemma_num_val_of_dec(c.step as nat);
    let t = config_text(c);
    let la = dec_digits(c.ip.a as nat).len() as int;
    let lb = dec_digits(c.ip.b as nat).len() as int;
    let lc = dec_digits(c.ip.c as nat).len() as int;
    let ld = dec_digits(c.ip.d as nat).len() as int;
    let ls = dec_digits(c.step as nat).len() as int;
    assert(t.len() == 19 + la + lb + lc + ld + ls);
    assert(t.subrange(0, 6) =~= "ip = \""@);
    assert(t.subrange(6, 6 + la) =~= dec_digits(c.ip.a as nat));
    assert(t.subrange(6 + la, 7 + la) =~= "."@);
    assert(t.subrange(7 + la, 7 + la + lb) =~= dec_digits(c.ip.b as nat));
    assert(t.subrange(7 + la + lb, 8 + la + lb) =~= "."@);
    assert(t.subrange(8 + la + lb, 8 + la + lb + lc) =~= dec_digits(c.ip.c as nat));
    assert(t.subrange(8 + la + lb + lc, 9 + la + lb + lc) =~= "."@);
    assert(t.subrange(9 + la + lb + lc, 9 + la + lb + lc + ld) =~= dec_digits(c.ip.d as nat));
    assert(t.subrange(9 + la + lb + lc + ld, 18 + la + lb + lc + ld) =~= "\"\nstep = "@);
    assert(t.subrange(18 + la + lb + lc + ld, 18 + la + lb + lc + ld + ls) =~= dec_digits(
        c.step as nat,
    ));
    assert(t.subrange(18 + la + lb + lc + ld + ls, 19 + la + lb + lc + ld + ls) =~= "\n"@);
    assert(t[6 + la] == '.');
    assert(t[7 + la + lb] == '.');
    assert(t[8 + la + lb + lc] == '.');
    assert(t[9 + la + lb + lc + ld] == '"');
    assert(t[18 + la + lb + lc + ld + ls] == '\n');
    lemma_run_of_digits(t, 6, dec_digits(c.ip.a as nat));
    lemma_run_of_digits(t, 7 + la, dec_digits(c.ip.b as nat));
    lemma_run_of_digits(t, 8 + la + lb, dec_digits(c.ip.c as nat));
    lemma_run_of_digits(t, 9 + la + lb + lc, dec_digits(c.ip.d as nat));
    lemma_run_of_digits(t, 18 + la + lb + lc + ld, dec_digits(c.step as nat));
}

/// A digit sequence found at `i` and delimited by a non-digit is exactly
/// the digit run at `i`.
proof fn lemma_run_of_digits(t: Seq<char>, i: int, p: Seq<char>)
    requires
        0 <= i,
        occurs_at(t, i, p),
        forall|k: int| 0 <= k < p.len() ==> is_digit(p[k]),
        i + p.len() == t.len() || !is_digit(t[i + p.len()]),
    ensures
        digit_run_end(t, i) == i + p.len(),
{
    crate::text::lemma_subrange_points(t, i, p);
    assert forall|k: int| i <= k < i + p.len() implies is_digit(t[k]) by {
        assert(t[k] == p[k - i]);
    }
    lemma_run_end_of(t, i, i + p.len());
}

} // verus!
