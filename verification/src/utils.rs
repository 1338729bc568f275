use vstd::prelude::*;
use vstd::string::*;

verus! {

/// The path separator of the platforms this runtime supports.
pub open spec fn separator() -> char {
    '/'
}

/// A path is absolute when it starts with the separator.
pub open spec fn is_absolute(path: Seq<char>) -> bool {
    path.len() > 0 && path[0] == separator()
}

/// What joining `part` onto `base` gives: an absolute `part` replaces `base`;
/// otherwise `part` is appended, with a separator in between unless `base`
/// is empty or already ends with one.
pub open spec fn joined(base: Seq<char>, part: Seq<char>) -> Seq<char> {
    if is_absolute(part) {
        part
    } else if base.len() == 0 || base.last() == separator() {
        base + part
    } else {
        base + seq![separator()] + part
    }
}

/// `path` with a separator at its end: a lone separator for the empty path,
/// `path` itself when it already ends with one.
pub open spec fn with_trailing_separator(path: Seq<char>) -> Seq<char> {
    if path.len() == 0 {
        seq![separator()]
    } else if path.last() == separator() {
        path
    } else {
        path.push(separator())
    }
}

/// Joins `part` onto `base` as a path, the way a path buffer extends itself.
pub fn join_path(base: &str, part: &str) -> (res: String)
    ensures
        res@ == joined(base@, part@),
{
    proof {
        reveal_strlit("/");
    }
    let part_len = part.unicode_len();
    if part_len > 0 && part.get_char(0) == '/' {
        return part.to_owned();
    }
    let base_len = base.unicode_len();
    let mut res = base.to_owned();
    if base_len > 0 && base.get_char(base_len - 1) != '/' {
        res.append("/");
    }
    res.append(part);
    res
}

/// Returns `path` ending with the separator; the empty path becomes the
/// separator alone.
pub fn last_must_separator(path: String) -> (res: String)
    requires
        path@.len() == 0 || string_is_ascii(&path),
    ensures
        res@ == with_trailing_separator(path@),
        res@.len() > 0,
        res@.last() == '/',
        res@.len() <= path@.len() + 1,
        res@.subrange(0, path@.len() as int) == path@,
        path@.len() > 0 && path@.last() == '/' ==> res@ == path@,
{
    proof {
        reveal_strlit("/");
        lemma_trailing_separator_idempotent(path@);
    }
    let mut path = path;
    let len = path.as_str().unicode_len();
    if len == 0 {
        return "/".to_owned();
    }
    if path.as_str().get_char(len - 1) != '/' {
        path.append("/");
    }
    path
}

/// A path given a trailing separator ends with the separator, keeps the
/// path as its beginning and adds at most that one character; a path that
/// already ends with the separator is kept as it is, and giving it one again
/// changes nothing.
pub proof fn lemma_trailing_separator_idempotent(path: Seq<char>)
    ensures
        with_trailing_separator(path).len() > 0,
        with_trailing_separator(path).last() == '/',
        with_trailing_separator(path).len() <= path.len() + 1,
        with_trailing_separator(path).subrange(0, path.len() as int) == path,
        path.len() > 0 && path.last() == '/' ==> with_trailing_separator(path) == path,
        with_trailing_separator(with_trailing_separator(path)) == with_trailing_separator(path),
{
    assert(with_trailing_separator(path).subrange(0, path.len() as int) =~= path);
}

/// The absolute form of `path` with `cwd` as the working directory: `path`
/// itself when it starts with the separator, `<cwd>/<path>` otherwise.
pub open spec fn absolute_in(cwd: Seq<char>, path: Seq<char>) -> Seq<char> {
    if is_absolute(path) {
        path
    } else {
        cwd.push(separator()) + path
    }
}

/// Makes `path` absolute against the working directory `cwd`; the empty
/// path is refused.
pub fn abs_path(cwd: &str, path: &str) -> (res: Result<String, &'static str>)
    ensures
        res is Err <==> path@.len() == 0,
        res matches Ok(p) ==> p@ == absolute_in(cwd@, path@),
        path@[0] == '/' ==> (res matches Ok(p) ==> p@ == path@),
        path@[0] != '/' ==> (res matches Ok(p) ==> p@.len() == cwd@.len() + 1 + path@.len()),
        path@[0] != '/' ==> (res matches Ok(p) ==> p@.subrange(0, cwd@.len() as int) == cwd@),
        path@[0] != '/' ==> (res matches Ok(p) ==> p@[cwd@.len() as int] == '/'),
        path@[0] != '/' ==> (res matches Ok(p) ==> p@.skip(cwd@.len() + 1int) == path@),
        res matches Err(e) ==> e@ == "path must not be empty"@,
{
    proof {
        reveal_strlit("/");
    }
    if path.unicode_len() == 0 {
        return Err("path must not be empty");
    }
    if path.get_char(0) == '/' {
        Ok(path.to_owned())
    } else {
        let mut res = cwd.to_owned();
        res.append("/");
        res.append(path);
        Ok(res)
    }
}

/// Against an absolute working directory, every path that is not refused
/// becomes absolute, and keeps its own characters at its end.
pub proof fn lemma_abs_path_is_absolute(cwd: Seq<char>, path: Seq<char>)
    requires
        is_absolute(cwd),
        path.len() > 0,
    ensures
        is_absolute(absolute_in(cwd, path)),
        absolute_in(cwd, path).skip(absolute_in(cwd, path).len() - path.len()) == path,
{
    let res = absolute_in(cwd, path);
    if !is_absolute(path) {
        assert(res[0] == cwd[0]);
    }
    assert(res.skip(res.len() - path.len()) =~= path);
}

/// Whether two texts hold the same characters.
pub(crate) fn str_equal(a: &str, b: &str) -> (res: bool)
    ensures
        res == (a@ == b@),
{
    let n = a.unicode_len();
    if n != b.unicode_len() {
        return false;
    }
    for i in 0..n
        invariant
            n == a@.len(),
            n == b@.len(),
            forall|j: int| 0 <= j < i ==> a@[j] == b@[j],
    {
        if a.get_char(i) != b.get_char(i) {
            return false;
        }
    }
    assert(a@ =~= b@);
    true
}

/// The character of a decimal digit.
pub open spec fn digit_char(d: nat) -> char {
    if d == 0 { '0' }
    else if d == 1 { '1' }
    else if d == 2 { '2' }
    else if d == 3 { '3' }
    else if d == 4 { '4' }
    else if d == 5 { '5' }
    else if d == 6 { '6' }
    else if d == 7 { '7' }
    else if d == 8 { '8' }
    else { '9' }
}

/// The decimal representation of `n`, without leading zeros.
pub open spec fn decimal(n: nat) -> Seq<char>
    decreases n,
{
    if n < 10 {
        seq![digit_char(n)]
    } else {
        decimal(n / 10).push(digit_char(n % 10))
    }
}

fn digit_str(d: u32) -> (s: &'static str)
    requires
        d < 10,
    ensures
        s@ == seq![digit_char(d as nat)],
{
    proof {
        reveal_strlit("0");
        reveal_strlit("1");
        reveal_strlit("2");
        reveal_strlit("3");
        reveal_strlit("4");
        reveal_strlit("5");
        reveal_strlit("6");
        reveal_strlit("7");
        reveal_strlit("8");
        reveal_strlit("9");
    }
    let s = match d {
        0 => "0",
        1 => "1",
        2 => "2",
        3 => "3",
        4 => "4",
        5 => "5",
        6 => "6",
        7 => "7",
        8 => "8",
        _ => "9",
    };
    assert(s@ =~= seq![digit_char(d as nat)]);
    s
}

/// Whether every character of `s` is one of `0` to `9`.
pub open spec fn all_digits(s: Seq<char>) -> bool {
    forall|i: int| 0 <= i < s.len() ==> '0' <= #[trigger] s[i] <= '9'
}

/// The number that the decimal digits `s` denote, read from the left.
pub open spec fn digits_value(s: Seq<char>) -> nat
    decreases s.len(),
{
    if s.len() == 0 {
        0
    } else {
        (10 * digits_value(s.drop_last()) + (s.last() as int - '0' as int)) as nat
    }
}

/// Every decimal representation is a nonempty run of digits with no
/// leading zero (unless it is `0` itself), and reading it back gives the
/// number it was written for.
pub proof fn lemma_decimal_reads_back(n: nat)
    ensures
        decimal(n).len() > 0,
        all_digits(decimal(n)),
        decimal(n).len() > 1 ==> decimal(n)[0] != '0',
        digits_value(decimal(n)) == n,
    decreases n,
{
    if n >= 10 {
        lemma_decimal_reads_back(n / 10);
        let d = (n % 10) as nat;
        let s = decimal(n / 10);
        let full = decimal(n);
        assert(full == s.push(digit_char(d)));
        assert(full.drop_last() =~= s);
        assert(full.last() == digit_char(d));
        assert(digit_char(d) as int - '0' as int == d);
        assert(full[0] == s[0]);
        assert(forall|i: int| 0 <= i < s.len() ==> full[i] == #[trigger] s[i]);
        if n / 10 < 10 {
            assert(s == seq![digit_char(n / 10)]);
            assert(s[0] != '0');
        } else {
            assert(s == decimal(n / 10 / 10).push(digit_char(n / 10 % 10)));
            assert(s.len() > 1);
        }
        assert(digits_value(full) == 10 * digits_value(s) + (full.last() as int - '0' as int));
        assert(n == 10 * (n / 10) + d);
    } else {
        assert(digit_char(n) as int - '0' as int == n);
        assert(decimal(n).drop_last() =~= Seq::<char>::empty());
        assert(digits_value(Seq::<char>::empty()) == 0);
    }
}

/// Writes `n` in decimal.
pub fn decimal_string(n: u32) -> (s: String)
    ensures
        s@ == decimal(n as nat),
        all_digits(s@),
        digits_value(s@) == n,
    decreases n,
{
    proof {
        lemma_decimal_reads_back(n as nat);
    }
    if n < 10 {
        digit_str(n).to_owned()
    } else {
        let mut s = decimal_string(n / 10);
        s.append(digit_str(n % 10));
        s
    }
}

/// Whether `path` names an existing directory, as `std::path::Path::is_dir`
/// reports it. The answer depends on the filesystem at the moment of the
/// call, so no clause states it.
#[verifier::external_body]
pub fn is_directory(path: &String) -> bool {
    std::path::Path::new(path).is_dir()
}

/// Whether anything exists at `path`, as `std::path::Path::exists` reports
/// it. The answer depends on the filesystem at the moment of the call, so no
/// clause states it.
#[verifier::external_body]
pub fn is_exist(path: &String) -> bool {
    std::path::Path::new(path).exists()
}

/// Whether `path` names an existing regular file, as
/// `std::path::Path::is_file` reports it. The answer depends on the
/// filesystem at the moment of the call, so no clause states it.
#[verifier::external_body]
pub(crate) fn is_file(path: &String) -> bool {
    std::path::Path::new(path).is_file()
}

} // verus!
