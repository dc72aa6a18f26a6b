//! Deterministic construction of a job's temporary file paths.
//!
//! A job with identifier `id` under base directory `base` uses exactly
//! `<base>/tmp-input-<id>` for the downloaded image and
//! `<base>/tmp-output-<id>.png` for the processed result, with `<id>`
//! written in decimal. No filesystem access happens here: the paths are
//! constructed, not validated.

use vstd::prelude::*;
use vstd::string::StrSliceExecFns;
use vstd::string::StringExecFns;

verus! {

/// The character for one decimal digit.
pub open spec fn digit_char(d: int) -> char {
    if d == 0 {
        '0'
    } else if d == 1 {
        '1'
    } else if d == 2 {
        '2'
    } else if d == 3 {
        '3'
    } else if d == 4 {
        '4'
    } else if d == 5 {
        '5'
    } else if d == 6 {
        '6'
    } else if d == 7 {
        '7'
    } else if d == 8 {
        '8'
    } else {
        '9'
    }
}

/// The decimal digits of `n`, most significant first, without leading zeros
/// (except for `n == 0`, which is the single digit `0`).
pub open spec fn dec_digits(n: nat) -> Seq<char>
    decreases n,
{
    if n < 10 {
        seq![digit_char(n as int)]
    } else {
        dec_digits(n / 10) + seq![digit_char((n % 10) as int)]
    }
}

fn digit_str(d: usize) -> (s: &'static str)
    requires
        d < 10,
    ensures
        s@ == seq![digit_char(d as int)],
{
    proof {
        reveal_strlit("0");
        reveal_strlit("1");
        reveal_strlit("2");
        reveal_strlit("3");
        reveal_strlit("4");
        reveal_strlit("5");
        reveal_strlit("6");
        reveal_strlit("7");
        reveal_strlit("8");
        reveal_strlit("9");
    }
    if d == 0 {
        proof { assert("0"@ =~= seq![digit_char(0)]); }
        "0"
    } else if d == 1 {
        proof { assert("1"@ =~= seq![digit_char(1)]); }
        "1"
    } else if d == 2 {
        proof { assert("2"@ =~= seq![digit_char(2)]); }
        "2"
    } else if d == 3 {
        proof { assert("3"@ =~= seq![digit_char(3)]); }
        "3"
    } else if d == 4 {
        proof { assert("4"@ =~= seq![digit_char(4)]); }
        "4"
    } else if d == 5 {
        proof { assert("5"@ =~= seq![digit_char(5)]); }
        "5"
    } else if d == 6 {
        proof { assert("6"@ =~= seq![digit_char(6)]); }
        "6"
    } else if d == 7 {
        proof { assert("7"@ =~= seq![digit_char(7)]); }
        "7"
    } else if d == 8 {
        proof { assert("8"@ =~= seq![digit_char(8)]); }
        "8"
    } else {
        proof { assert("9"@ =~= seq![digit_char(9)]); }
        "9"
    }
}

/// Writes `n` in decimal.
pub fn format_usize(n: usize) -> (s: String)
    ensures
        s@ == dec_digits(n as nat),
    decreases n,
{
    if n < 10 {
        digit_str(n).to_owned()
    } else {
        let mut s = format_usize(n / 10);
        s.append(digit_str(n % 10));
        s
    }
}

/// The file name of a job's temporary input file: `tmp-input-<id>`.
pub open spec fn input_file_name(id: nat) -> Seq<char> {
    "tmp-input-"@ + dec_digits(id)
}

/// The file name of a job's temporary output file: `tmp-output-<id>.png`.
pub open spec fn output_file_name(id: nat) -> Seq<char> {
    "tmp-output-"@ + dec_digits(id) + ".png"@
}

/// A file name joined under a base directory with a single separator.
pub open spec fn joined_path(base: Seq<char>, name: Seq<char>) -> Seq<char> {
    base + "/"@ + name
}

/// The full path of a job's temporary input file.
pub open spec fn input_path_spec(base: Seq<char>, id: nat) -> Seq<char> {
    joined_path(base, input_file_name(id))
}

/// The full path of a job's temporary output file.
pub open spec fn output_path_spec(base: Seq<char>, id: nat) -> Seq<char> {
    joined_path(base, output_file_name(id))
}

/// Builds `<tmp_dir>/tmp-input-<id>`.
pub fn input_path(tmp_dir: &str, id: usize) -> (p: String)
    ensures
        p@ == input_path_spec(tmp_dir@, id as nat),
{
    let mut p = tmp_dir.to_owned();
    p.append("/");
    p.append("tmp-input-");
    let digits = format_usize(id);
    p.append(digits.as_str());
    proof {
        assert(p@ =~= input_path_spec(tmp_dir@, id as nat));
    }
    p
}

/// Builds `<tmp_dir>/tmp-output-<id>.png`.
pub fn output_path(tmp_dir: &str, id: usize) -> (p: String)
    ensures
        p@ == output_path_spec(tmp_dir@, id as nat),
{
    let mut p = tmp_dir.to_owned();
    p.append("/");
    p.append("tmp-output-");
    let digits = format_usize(id);
    p.append(digits.as_str());
    p.append(".png");
    proof {
        assert(p@ =~= output_path_spec(tmp_dir@, id as nat));
    }
    p
}

proof fn lemma_seq_prefix_cancel(a: Seq<char>, b: Seq<char>, c: Seq<char>)
    requires
        a + b == a + c,
    ensures
        b == c,
{
    assert(b.len() == c.len()) by {
        assert((a + b).len() == a.len() + b.len());
        assert((a + c).len() == a.len() + c.len());
        assert((a + b).len() == (a + c).len());
    }
    assert forall|k: int| 0 <= k < b.len() implies b[k] == c[k] by {
        assert((a + b)[a.len() + k] == b[k]);
        assert((a + c)[a.len() + k] == c[k]);
    }
    assert(b =~= c);
}

proof fn lemma_seq_suffix_cancel(a: Seq<char>, b: Seq<char>, c: Seq<char>)
    requires
        b + a == c + a,
        b.len() == c.len(),
    ensures
        b == c,
{
    assert forall|k: int| 0 <= k < b.len() implies b[k] == c[k] by {
        assert((b + a)[k] == b[k]);
        assert((c + a)[k] == c[k]);
    }
    assert(b =~= c);
}

proof fn lemma_dec_digits_len(n: nat)
    ensures
        dec_digits(n).len() >= 1,
        n >= 10 ==> dec_digits(n).len() >= 2,
    decreases n,
{
    if n >= 10 {
        lemma_dec_digits_len(n / 10);
    }
}

/// Distinct numbers have distinct decimal representations.
proof fn lemma_dec_digits_injective(m: nat, n: nat)
    requires
        dec_digits(m) == dec_digits(n),
    ensures
        m == n,
    decreases m + n,
{
    lemma_dec_digits_len(m);
    lemma_dec_digits_len(n);
    if m < 10 && n < 10 {
        assert(dec_digits(m)[0] == digit_char(m as int));
        assert(dec_digits(n)[0] == digit_char(n as int));
    } else if m < 10 || n < 10 {
        assert(dec_digits(m).len() == dec_digits(n).len());
        assert(false);
    } else {
        let dm = dec_digits(m / 10);
        let dn = dec_digits(n / 10);
        let len: int = dec_digits(m).len() as int;
        assert(dm.len() == dn.len()) by {
            assert((dm + seq![digit_char((m % 10) as int)]).len() == len);
            assert((dn + seq![digit_char((n % 10) as int)]).len() == len);
        }
        assert(digit_char((m % 10) as int) == digit_char((n % 10) as int)) by {
            assert(dec_digits(m)[len - 1] == digit_char((m % 10) as int));
            assert(dec_digits(n)[len - 1] == digit_char((n % 10) as int));
        }
        assert(m % 10 == n % 10);
        lemma_seq_suffix_cancel(seq![digit_char((m % 10) as int)], dm, dn);
        lemma_dec_digits_injective(m / 10, n / 10);
    }
}

/// Temp file names of jobs with distinct identifiers never coincide, and an
/// input file name never coincides with an output file name.
proof fn lemma_file_names_distinct(i: nat, j: nat)
    ensures
        i != j ==> input_file_name(i) != input_file_name(j),
        i != j ==> output_file_name(i) != output_file_name(j),
        input_file_name(i) != output_file_name(j),
{
    lemma_dec_digits_len(i);
    lemma_dec_digits_len(j);
    if i != j && input_file_name(i) == input_file_name(j) {
        lemma_seq_prefix_cancel("tmp-input-"@, dec_digits(i), dec_digits(j));
        lemma_dec_digits_injective(i, j);
    }
    if i != j && output_file_name(i) == output_file_name(j) {
        assert(("tmp-output-"@ + dec_digits(i)) + ".png"@ == ("tmp-output-"@ + dec_digits(j))
            + ".png"@);
        assert(("tmp-output-"@ + dec_digits(i)).len() == ("tmp-output-"@ + dec_digits(j)).len());
        lemma_seq_suffix_cancel(
            ".png"@,
            "tmp-output-"@ + dec_digits(i),
            "tmp-output-"@ + dec_digits(j),
        );
        lemma_seq_prefix_cancel("tmp-output-"@, dec_digits(i), dec_digits(j));
        lemma_dec_digits_injective(i, j);
    }
    if input_file_name(i) == output_file_name(j) {
        reveal_strlit("tmp-input-");
        reveal_strlit("tmp-output-");
        assert(input_file_name(i)[4] == "tmp-input-"@[4]);
        assert(output_file_name(j)[4] == ("tmp-output-"@ + dec_digits(j))[4]);
        assert(output_file_name(j)[4] == "tmp-output-"@[4]);
        assert(false);
    }
}

/// Under one base directory, jobs with distinct identifiers use four
/// pairwise distinct temporary paths: neither job's input or output path
/// coincides with any path of the other, so concurrent jobs with distinct
/// identifiers never touch each other's files. An input path also never
/// coincides with any output path.
pub proof fn lemma_distinct_ids_no_collision(base: Seq<char>, i: nat, j: nat)
    ensures
        i != j ==> input_path_spec(base, i) != input_path_spec(base, j),
        i != j ==> output_path_spec(base, i) != output_path_spec(base, j),
        input_path_spec(base, i) != output_path_spec(base, j),
{
    lemma_file_names_distinct(i, j);
    if i != j && input_path_spec(base, i) == input_path_spec(base, j) {
        lemma_seq_prefix_cancel(base + "/"@, input_file_name(i), input_file_name(j));
    }
    if i != j && output_path_spec(base, i) == output_path_spec(base, j) {
        lemma_seq_prefix_cancel(base + "/"@, output_file_name(i), output_file_name(j));
    }
    if input_path_spec(base, i) == output_path_spec(base, j) {
        lemma_seq_prefix_cancel(base + "/"@, input_file_name(i), output_file_name(j));
    }
}

/// Whether the character sequence holds an embedded terminator, which the
/// foreign boundary's byte-string form cannot represent.
pub open spec fn contains_nul(s: Seq<char>) -> bool {
    exists|i: int| 0 <= i < s.len() && s[i] == '\0'
}

/// Scans a path for an embedded terminator character.
pub fn has_nul(s: &str) -> (b: bool)
    ensures
        b == contains_nul(s@),
{
    let n: usize = s.unicode_len();
    let mut i: usize = 0;
    while i < n
        invariant
            0 <= i <= n,
            n == s@.len(),
            forall|j: int| 0 <= j < i ==> s@[j] != '\0',
        decreases n - i,
    {
        let c = s.get_char(i);
        if c == '\0' {
            proof {
                assert(s@[i as int] == '\0');
            }
            return true;
        }
        i += 1;
    }
    false
}

} // verus!
