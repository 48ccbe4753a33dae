//! Label text utilities: blankness, comparison, the multimer suffix,
//! state-variable label synthesis, and the sibling output path.

use vstd::prelude::*;

verus! {

use vstd::string::StrSliceExecFns;
use vstd::string::StringExecFns;

/// The characters `str::trim` removes: Unicode's White_Space set.
pub open spec fn is_space_char(c: char) -> bool {
    ||| c == ' '
    ||| c == '\t'
    ||| c == '\n'
    ||| c == '\r'
    ||| c as int == 0x0b
    ||| c as int == 0x0c
    ||| c as int == 0x85
    ||| c as int == 0xa0
    ||| c as int == 0x1680
    ||| (0x2000 <= c as int <= 0x200a)
    ||| c as int == 0x2028
    ||| c as int == 0x2029
    ||| c as int == 0x202f
    ||| c as int == 0x205f
    ||| c as int == 0x3000
}

/// Nothing but whitespace: text that draws as nothing.
pub open spec fn is_blank(s: Seq<char>) -> bool {
    forall|i: int| 0 <= i < s.len() ==> is_space_char(s[i])
}

fn is_space(c: char) -> (r: bool)
    ensures
        r == is_space_char(c),
{
    let u = c as u32;
    u == 0x20 || u == 0x09 || u == 0x0a || u == 0x0d || u == 0x0b || u == 0x0c || u == 0x85 || u
        == 0xa0 || u == 0x1680 || (0x2000 <= u && u <= 0x200a) || u == 0x2028 || u == 0x2029 || u
        == 0x202f || u == 0x205f || u == 0x3000
}

/// Whether the text is empty or all whitespace.
pub fn blank(s: &str) -> (r: bool)
    ensures
        r == is_blank(s@),
{
    let n = s.unicode_len();
    let mut i: usize = 0;
    while i < n
        invariant
            i <= n,
            n == s@.len(),
            forall|j: int| 0 <= j < i ==> is_space_char(s@[j]),
        decreases n - i,
    {
        let c = s.get_char(i);
        if !is_space(c) {
            return false;
        }
        i += 1;
    }
    true
}

/// Character-for-character string equality.
pub fn str_eqs(a: &str, b: &str) -> (r: bool)
    ensures
        r == (a@ == b@),
{
    let na = a.unicode_len();
    let nb = b.unicode_len();
    if na != nb {
        proof {
            if a@ == b@ {
                assert(a@.len() == b@.len());
            }
        }
        return false;
    }
    let mut i: usize = 0;
    while i < na
        invariant
            i <= na,
            na == a@.len(),
            na == b@.len(),
            forall|j: int| 0 <= j < i ==> a@[j] == b@[j],
        decreases na - i,
    {
        let ca = a.get_char(i);
        let cb = b.get_char(i);
        if ca != cb {
            return false;
        }
        i += 1;
    }
    proof {
        assert(a@ =~= b@);
    }
    true
}

/// The suffix that marks a multimer variant of a class name.
pub open spec fn has_multimer_suffix(s: Seq<char>) -> bool {
    s.len() >= 9 && s.subrange(s.len() - 9, s.len() as int) == " multimer"@
}

/// The class name with a trailing " multimer" removed, if present.
pub open spec fn strip_multimer(s: Seq<char>) -> Seq<char> {
    if has_multimer_suffix(s) {
        s.subrange(0, s.len() - 9)
    } else {
        s
    }
}

/// Whether the class name carries the multimer suffix.
pub fn is_multimer_name(s: &str) -> (r: bool)
    ensures
        r == has_multimer_suffix(s@),
{
    let n = s.unicode_len();
    if n < 9 {
        return false;
    }
    let suf = s.substring_char(n - 9, n);
    str_eqs(suf, " multimer")
}

/// The class name without its multimer suffix.
pub fn base_name<'a>(s: &'a str) -> (r: &'a str)
    ensures
        r@ == strip_multimer(s@),
{
    if is_multimer_name(s) {
        let n = s.unicode_len();
        s.substring_char(0, n - 9)
    } else {
        s
    }
}

/// The label synthesized for a state variable: `value@variable`, or whichever
/// of the two is present and non-empty, or the empty string.
pub open spec fn state_var_label_v(value: Option<Seq<char>>, variable: Option<Seq<char>>) -> Seq<
    char,
> {
    if value matches Some(v) && variable matches Some(r) && v.len() > 0 && r.len() > 0 {
        value->0 + "@"@ + variable->0
    } else if value matches Some(v) && v.len() > 0 {
        value->0
    } else if variable matches Some(r) && r.len() > 0 {
        variable->0
    } else {
        Seq::empty()
    }
}

/// Build a state variable label in the `value@variable` form.
pub fn state_var_label(value: Option<&str>, variable: Option<&str>) -> (r: String)
    ensures
        r@ == state_var_label_v(
            match value {
                Some(v) => Some(v@),
                None => None,
            },
            match variable {
                Some(v) => Some(v@),
                None => None,
            },
        ),
{
    match (value, variable) {
        (Some(v), Some(r)) if !v.is_empty() && !r.is_empty() => {
            String::from_str(v).concat("@").concat(r)
        },
        (Some(v), _) if !v.is_empty() => String::from_str(v),
        (_, Some(r)) if !r.is_empty() => String::from_str(r),
        _ => {
            let s = String::new();
            proof {
                assert(s@ =~= Seq::<char>::empty());
            }
            s
        },
    }
}

/// The index of the last occurrence of `c` strictly before `upto`, or -1.
pub open spec fn rlast(s: Seq<char>, c: char, upto: int) -> int
    decreases upto,
{
    if upto <= 0 {
        -1
    } else if s[upto - 1] == c {
        upto - 1
    } else {
        rlast(s, c, upto - 1)
    }
}

fn rlast_exec(s: &str, c: char, upto: usize) -> (r: Option<usize>)
    requires
        upto <= s@.len(),
    ensures
        r matches Some(k) ==> k as int == rlast(s@, c, upto as int) && k < upto,
        r is None ==> rlast(s@, c, upto as int) == -1,
    decreases upto,
{
    if upto == 0 {
        None
    } else {
        let ch = s.get_char(upto - 1);
        if ch == c {
            Some(upto - 1)
        } else {
            rlast_exec(s, c, upto - 1)
        }
    }
}

/// The length of the path without its trailing separators.
pub open spec fn trim_slashes(p: Seq<char>, m: int) -> int
    decreases m,
{
    if m <= 0 {
        0
    } else if p[m - 1] == '/' {
        trim_slashes(p, m - 1)
    } else {
        m
    }
}

/// The sibling path with its extension replaced by `svg`: trailing
/// separators are dropped, the portion after the final dot of the file name
/// is replaced, or `.svg` is appended when the file name has no usable dot;
/// a path without a proper file name (empty, all separators, or ending in
/// `.` or `..`) is returned unchanged.
pub open spec fn svg_path_v(p: Seq<char>) -> Seq<char> {
    let m = trim_slashes(p, p.len() as int);
    if m == 0 {
        p
    } else {
        let sl = rlast(p, '/', m);
        let name = p.subrange(sl + 1, m);
        if name == "."@ || name == ".."@ {
            p
        } else {
            let dot = rlast(p, '.', m);
            if dot > sl + 1 {
                p.subrange(0, dot) + ".svg"@
            } else {
                p.subrange(0, m) + ".svg"@
            }
        }
    }
}

/// The default vector-output path beside a raster output path.
pub fn default_svg_output_path(output: &str) -> (r: String)
    ensures
        r@ == svg_path_v(output@),
{
    let n = output.unicode_len();
    let mut m: usize = n;
    while m > 0 && output.get_char(m - 1) == '/'
        invariant
            m <= n,
            n == output@.len(),
            trim_slashes(output@, n as int) == trim_slashes(output@, m as int),
        decreases m,
    {
        m -= 1;
    }
    proof {
        assert(trim_slashes(output@, m as int) == m as int);
    }
    if m == 0 {
        return String::from_str(output);
    }
    let sl = rlast_exec(output, '/', m);
    let name_start: usize = match sl {
        Some(k) => k + 1,
        None => 0,
    };
    let name = output.substring_char(name_start, m);
    if str_eqs(name, ".") || str_eqs(name, "..") {
        return String::from_str(output);
    }
    let dot = rlast_exec(output, '.', m);
    let cut: Option<usize> = match dot {
        Some(k) if k > name_start => Some(k),
        _ => None,
    };
    match cut {
        Some(k) => {
            let stem = output.substring_char(0, k);
            String::from_str(stem).concat(".svg")
        },
        None => {
            let base = output.substring_char(0, m);
            String::from_str(base).concat(".svg")
        },
    }
}

} // verus!
