use vstd::prelude::*;
use vstd::string::*;

verus! {

/// The version of the compiler that built the datastore, and the plugin
/// interface version. A plugin is loadable only when both match.
#[derive(Debug, PartialEq, Eq)]
pub struct VersionInfo {
    pub rustc: String,
    pub indradb_interface: u8,
}

/// The plugin interface version that this library implements.
pub open spec fn interface_version() -> u8 {
    0
}

/// The version record of this build, given the compiler version string that
/// the build recorded.
pub fn indradb_version_info(rustc: String) -> (info: VersionInfo)
    ensures
        info.rustc@ == rustc@,
        info.indradb_interface == interface_version(),
{
    VersionInfo { rustc, indradb_interface: 0 }
}

/// The decimal digit character for `d`, which is below ten.
pub open spec fn digit_char(d: nat) -> char {
    if d == 0 { '0' } else if d == 1 { '1' } else if d == 2 { '2' } else if d == 3 { '3' }
    else if d == 4 { '4' } else if d == 5 { '5' } else if d == 6 { '6' } else if d == 7 { '7' }
    else if d == 8 { '8' } else { '9' }
}

/// The decimal notation of `n`, without leading zeros.
pub open spec fn decimal(n: nat) -> Seq<char>
    decreases n,
{
    if n < 10 {
        seq![digit_char(n)]
    } else {
        decimal(n / 10).push(digit_char(n % 10))
    }
}

/// The text `VersionInfo` is shown as.
pub open spec fn version_text(rustc: Seq<char>, interface: u8) -> Seq<char> {
    "rustc="@ + rustc + ", indradb_interface="@ + decimal(interface as nat)
}

fn digit_str(d: u8) -> (s: &'static str)
    requires
        d < 10,
    ensures
        s@ == seq![digit_char(d as nat)],
{
    proof {
        reveal_strlit("0");
        reveal_strlit("1");
        reveal_strlit("2");
        reveal_strlit("3");
        reveal_strlit("4");
        reveal_strlit("5");
        reveal_strlit("6");
        reveal_strlit("7");
        reveal_strlit("8");
        reveal_strlit("9");
    }
    if d == 0 { "0" } else if d == 1 { "1" } else if d == 2 { "2" } else if d == 3 { "3" }
    else if d == 4 { "4" } else if d == 5 { "5" } else if d == 6 { "6" } else if d == 7 { "7" }
    else if d == 8 { "8" } else { "9" }
}

/// Appends the decimal notation of `n` to `out`.
fn push_decimal(out: &mut String, n: u8)
    ensures
        final(out)@ == old(out)@ + decimal(n as nat),
    decreases n,
{
    if n >= 10 {
        push_decimal(out, n / 10);
    }
    out.append(digit_str(n % 10));
    proof {
        assert(decimal(n as nat) =~= if n < 10 { seq![digit_char(n as nat)] } else {
            decimal((n / 10) as nat).push(digit_char((n % 10) as nat))
        });
    }
}

impl VersionInfo {
    /// The record as text, `rustc=<version>, indradb_interface=<number>`.
    pub fn to_display_string(&self) -> (s: String)
        ensures
            s@ == version_text(self.rustc@, self.indradb_interface),
    {
        proof {
            reveal_strlit("rustc=");
            reveal_strlit(", indradb_interface=");
        }
        let mut s = String::from_str("rustc=");
        s.append(self.rustc.as_str());
        s.append(", indradb_interface=");
        push_decimal(&mut s, self.indradb_interface);
        s
    }
}

/// The number that the decimal digits `s` spell, most significant first.
pub open spec fn decimal_value(s: Seq<char>) -> int
    decreases s.len(),
{
    if s.len() == 0 {
        0
    } else {
        decimal_value(s.drop_last()) * 10 + (s.last() as u32 - 48)
    }
}

/// Whether every character of `s` is one of the digits `0` to `9`.
pub open spec fn all_digits(s: Seq<char>) -> bool {
    forall|i: int| 0 <= i < s.len() ==> 48 <= (#[trigger] s[i]) as u32 <= 57
}

/// Law: the digit character for `d` is the character whose code is that of
/// `0` plus `d`.
pub proof fn law_digit_char(d: nat)
    requires
        d < 10,
    ensures
        digit_char(d) as u32 == 48 + d,
{
}

/// Law: `decimal(n)` is the standard decimal notation of `n`: it is made of
/// digits, spells `n`, and starts with `0` only when `n` is zero.
pub proof fn law_decimal(n: nat)
    ensures
        all_digits(decimal(n)),
        decimal_value(decimal(n)) == n,
        decimal(n).len() > 0,
        decimal(n)[0] == '0' ==> n == 0,
    decreases n,
{
    law_digit_char(n % 10);
    let s = decimal(n);
    if n >= 10 {
        law_decimal(n / 10);
        assert(s.drop_last() =~= decimal(n / 10));
        assert(s[0] == decimal(n / 10)[0]);
        assert(s.last() == digit_char(n % 10));
        assert(decimal_value(s) == decimal_value(decimal(n / 10)) * 10 + (n % 10));
        assert((n / 10) * 10 + n % 10 == n);
    } else {
        assert(s.drop_last() =~= Seq::<char>::empty());
        assert(decimal_value(s) == decimal_value(Seq::<char>::empty()) * 10 + (n % 10));
    }
}

} // verus!