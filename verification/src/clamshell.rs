use vstd::prelude::*;
use crate::text::{chars_contain, chars_of, has_substring, push_char, str_contains};

verus! {

/// Where the sudoers rule that lets Vyv run `pmset` is installed.
pub const SUDOERS_FILE: &'static str = "/etc/sudoers.d/vyv_power";

/// The sudoers rule: members of `admin` may switch sleep off and on without a password.
pub const SUDOERS_CONTENT: &'static str = "Cmnd_Alias PMSET_VYV= /usr/bin/pmset -a disablesleep 1, /usr/bin/pmset -a disablesleep 0\n%admin ALL=(ALL) NOPASSWD: PMSET_VYV\n";

/// Whether something exists at `path` (`std::path::Path::exists`). The answer depends on
/// the file system, so nothing is claimed of it.
#[verifier::external_body]
fn path_exists(path: &str) -> (r: bool) {
    std::path::Path::new(path).exists()
}

/// Whether the Vyv sudoers file is installed.
pub fn is_sudoers_installed() -> (r: bool) {
    path_exists(SUDOERS_FILE)
}

/// The characters that stand for `c` inside a double-quoted AppleScript string: a newline
/// becomes `\n`, a double quote `\"`; anything else stands for itself.
pub open spec fn escaped_char(c: char) -> Seq<char> {
    if c == '\n' {
        seq!['\\', 'n']
    } else if c == '"' {
        seq!['\\', '"']
    } else {
        seq![c]
    }
}

/// `s` with every character escaped.
pub open spec fn escaped(s: Seq<char>) -> Seq<char>
    decreases s.len(),
{
    if s.len() == 0 {
        Seq::empty()
    } else {
        escaped(s.drop_last()) + escaped_char(s.last())
    }
}

/// Escaped text holds no line break, and a double quote in it is always preceded by a
/// backslash, so it stays inside one double-quoted string on one line.
pub proof fn lemma_escaped_is_one_line(s: Seq<char>)
    ensures
        !escaped(s).contains('\n'),
        forall|i: int| 0 <= i < escaped(s).len() && #[trigger] escaped(s)[i] == '"' ==> i > 0 && escaped(s)[i - 1] == '\\',
    decreases s.len(),
{
    if s.len() > 0 {
        lemma_escaped_is_one_line(s.drop_last());
        let front = escaped(s.drop_last());
        let tail = escaped_char(s.last());
        assert(escaped(s) == front + tail);
        assert forall|i: int| 0 <= i < escaped(s).len() implies escaped(s)[i] != '\n' by {
            if i < front.len() {
                assert(escaped(s)[i] == front[i]);
            }
        }
        assert forall|i: int| 0 <= i < escaped(s).len() && #[trigger] escaped(s)[i] == '"' implies i > 0 && escaped(s)[i - 1] == '\\' by {
            if i < front.len() {
                assert(escaped(s)[i] == front[i]);
                assert(escaped(s)[i - 1] == front[i - 1]);
            } else {
                assert(escaped(s)[i] == tail[i - front.len()]);
            }
        }
    }
}

/// Escapes text for a double-quoted AppleScript string: newlines become `\n` and double
/// quotes `\"` (as replacing `'\n'` with `"\\n"` and then `'"'` with `"\\\""` does).
pub fn escape_for_applescript(s: &str) -> (r: String)
    ensures
        r@ == escaped(s@),
{
    let chars = chars_of(s);
    let mut out = String::new();
    let mut i: usize = 0;
    while i < chars.len()
        invariant
            chars@ == s@,
            i <= chars@.len(),
            out@ == escaped(s@.subrange(0, i as int)),
        decreases chars.len() - i,
    {
        let c = chars[i];
        if c == '\n' {
            push_char(&mut out, '\\');
            push_char(&mut out, 'n');
        } else if c == '"' {
            push_char(&mut out, '\\');
            push_char(&mut out, '"');
        } else {
            push_char(&mut out, c);
        }
        assert(s@.subrange(0, i + 1).drop_last() =~= s@.subrange(0, i as int));
        assert(s@.subrange(0, i + 1).last() == c);
        i = i + 1;
        assert(out@ =~= escaped(s@.subrange(0, i as int)));
    }
    assert(s@.subrange(0, i as int) =~= s@);
    out
}

/// The AppleScript that installs the sudoers file with administrator rights: it writes the
/// escaped rule to the file with `sudo tee` and makes the file read-only (mode 440).
pub open spec fn install_script_spec() -> Seq<char> {
    "do shell script \"echo '"@ + escaped(SUDOERS_CONTENT@) + "' | sudo tee "@ + SUDOERS_FILE@
        + " > /dev/null && sudo chmod 440 "@ + SUDOERS_FILE@ + "\" with administrator privileges"@
}

/// The script that installs the sudoers file (run with `osascript -e`).
pub fn install_script() -> (r: String)
    ensures
        r@ == install_script_spec(),
{
    let mut s = String::from_str("do shell script \"echo '");
    let body = escape_for_applescript(SUDOERS_CONTENT);
    s.append(body.as_str());
    s.append("' | sudo tee ");
    s.append(SUDOERS_FILE);
    s.append(" > /dev/null && sudo chmod 440 ");
    s.append(SUDOERS_FILE);
    s.append("\" with administrator privileges");
    s
}

/// The error for a failed installation: the user cancelled the password prompt when
/// osascript reports "User canceled" or error -128; otherwise its message is passed on.
pub open spec fn install_failure_spec(stderr: Seq<char>) -> Seq<char> {
    if has_substring(stderr, "User canceled"@) || has_substring(stderr, "-128"@) {
        "User cancelled the authorization"@
    } else {
        "Failed to install sudoers: "@ + stderr
    }
}

/// The error for a failed installation, from osascript's error output.
pub fn install_failure_message(stderr: &str) -> (r: String)
    ensures
        r@ == install_failure_spec(stderr@),
{
    if str_contains(stderr, "User canceled") || str_contains(stderr, "-128") {
        String::from_str("User cancelled the authorization")
    } else {
        let mut s = String::from_str("Failed to install sudoers: ");
        s.append(stderr);
        s
    }
}

/// The result of an installation run: success, or the error its output explains.
pub fn install_outcome(success: bool, stderr: &str) -> (r: Result<(), String>)
    ensures
        success ==> r is Ok,
        !success ==> (r matches Err(e) && e@ == install_failure_spec(stderr@)),
{
    if success {
        Ok(())
    } else {
        Err(install_failure_message(stderr))
    }
}

/// The result of a `pmset` run: success, or an error carrying its error output.
pub fn pmset_outcome(success: bool, stderr: &str) -> (r: Result<(), String>)
    ensures
        success ==> r is Ok,
        !success ==> (r matches Err(e) && e@ == "pmset failed: "@ + stderr@),
{
    if success {
        Ok(())
    } else {
        Err(pmset_failure_message(stderr))
    }
}

/// The error for a failed `pmset` run, from its error output.
pub fn pmset_failure_message(stderr: &str) -> (r: String)
    ensures
        r@ == "pmset failed: "@ + stderr@,
{
    let mut s = String::from_str("pmset failed: ");
    s.append(stderr);
    s
}

/// The arguments of the `sudo` call that turns sleep off (`true`) or back on (`false`).
pub fn pmset_args(disable_sleep: bool) -> (r: Vec<&'static str>)
    ensures
        r@.len() == 4,
        r@[0]@ == "/usr/bin/pmset"@,
        r@[1]@ == "-a"@,
        r@[2]@ == "disablesleep"@,
        r@[3]@ == (if disable_sleep { "1"@ } else { "0"@ }),
{
    let mut v: Vec<&'static str> = Vec::new();
    v.push("/usr/bin/pmset");
    v.push("-a");
    v.push("disablesleep");
    if disable_sleep {
        v.push("1");
    } else {
        v.push("0");
    }
    v
}

/// Whether a character is white space (`char::is_whitespace`: the Unicode White_Space
/// property).
pub open spec fn is_white_space(c: char) -> bool {
    let u = c as u32;
    (0x09 <= u <= 0x0D) || u == 0x20 || u == 0x85 || u == 0xA0 || u == 0x1680 || (0x2000 <= u <= 0x200A)
        || u == 0x2028 || u == 0x2029 || u == 0x202F || u == 0x205F || u == 0x3000
}

fn white_space(c: char) -> (r: bool)
    ensures
        r == is_white_space(c),
{
    let u = c as u32;
    (0x09 <= u && u <= 0x0D) || u == 0x20 || u == 0x85 || u == 0xA0 || u == 0x1680 || (0x2000 <= u
        && u <= 0x200A) || u == 0x2028 || u == 0x2029 || u == 0x202F || u == 0x205F || u == 0x3000
}

/// Whether the line, with surrounding white space trimmed, ends with `1`.
pub open spec fn trimmed_ends_with_one(line: Seq<char>) -> bool {
    exists|k: int|
        0 <= k < line.len() && line[k] == '1' && forall|m: int| k < m < line.len() ==> is_white_space(
            #[trigger] line[m],
        )
}

/// A line of `pmset -g` output that says sleep is disabled: it mentions `SleepDisabled` and
/// ends with `1`.
pub open spec fn line_reports_disabled(line: Seq<char>) -> bool {
    has_substring(line, "SleepDisabled"@) && trimmed_ends_with_one(line)
}

/// `s[i..j]` is a whole line of `s`.
pub open spec fn is_line(s: Seq<char>, i: int, j: int) -> bool {
    &&& 0 <= i <= j <= s.len()
    &&& i == 0 || s[i - 1] == '\n'
    &&& j == s.len() || s[j] == '\n'
    &&& forall|k: int| i <= k < j ==> s[k] != '\n'
}

/// Some line of the output says sleep is disabled.
pub open spec fn reports_sleep_disabled(s: Seq<char>) -> bool {
    exists|i: int, j: int| #[trigger] is_line(s, i, j) && line_reports_disabled(s.subrange(i, j))
}

fn segment(v: &Vec<char>, start: usize, end: usize) -> (r: Vec<char>)
    requires
        start <= end <= v@.len(),
    ensures
        r@ == v@.subrange(start as int, end as int),
{
    let mut out: Vec<char> = Vec::new();
    let mut i = start;
    while i < end
        invariant
            start <= i <= end,
            end <= v@.len(),
            out@ == v@.subrange(start as int, i as int),
        decreases end - i,
    {
        out.push(v[i]);
        i = i + 1;
        assert(out@ =~= v@.subrange(start as int, i as int));
    }
    out
}

fn ends_with_one(line: &Vec<char>) -> (r: bool)
    ensures
        r == trimmed_ends_with_one(line@),
{
    let mut i = line.len();
    while i > 0
        invariant
            i <= line@.len(),
            forall|m: int| i <= m < line@.len() ==> is_white_space(#[trigger] line@[m]),
        decreases i,
    {
        let c = line[i - 1];
        if !white_space(c) {
            if c == '1' {
                assert(line@[i - 1] == '1');
                return true;
            } else {
                assert forall|k: int| 0 <= k < line@.len() && line@[k] == '1' implies !(forall|m: int|
                    k < m < line@.len() ==> is_white_space(#[trigger] line@[m])) by {
                    if k < i - 1 {
                        assert(!is_white_space(line@[i - 1]));
                    }
                }
                return false;
            }
        }
        i = i - 1;
    }
    assert forall|k: int| 0 <= k < line@.len() && line@[k] == '1' implies !(forall|m: int|
        k < m < line@.len() ==> is_white_space(#[trigger] line@[m])) by {
        assert(is_white_space(line@[k]));
    }
    false
}

fn line_says_disabled(v: &Vec<char>, start: usize, end: usize, marker: &Vec<char>) -> (r: bool)
    requires
        start <= end <= v@.len(),
        marker@ == "SleepDisabled"@,
    ensures
        r == line_reports_disabled(v@.subrange(start as int, end as int)),
{
    let line = segment(v, start, end);
    chars_contain(&line, marker) && ends_with_one(&line)
}

/// Whether `pmset -g` output says sleep is disabled: some line mentions `SleepDisabled`
/// and, trimmed, ends with `1`.
pub fn sleep_disabled_in(output: &str) -> (r: bool)
    ensures
        r == reports_sleep_disabled(output@),
{
    let v = chars_of(output);
    let marker = chars_of("SleepDisabled");
    let n = v.len();
    let mut start: usize = 0;
    let mut i: usize = 0;
    while i < n
        invariant
            v@ == output@,
            n == v@.len(),
            marker@ == "SleepDisabled"@,
            start <= i <= n,
            start == 0 || v@[start - 1] == '\n',
            forall|k: int| start <= k < i ==> v@[k] != '\n',
            forall|a: int, b: int|
                #[trigger] is_line(v@, a, b) && a < start ==> !line_reports_disabled(v@.subrange(a, b)),
        decreases n - i,
    {
        if v[i] == '\n' {
            assert(is_line(v@, start as int, i as int));
            if line_says_disabled(&v, start, i, &marker) {
                return true;
            }
            assert forall|a: int, b: int|
                #[trigger] is_line(v@, a, b) && a < i + 1 implies !line_reports_disabled(v@.subrange(a, b)) by {
                if a >= start {
                    if a > start {
                        assert(v@[a - 1] == '\n');
                    }
                    assert(a == start);
                    if b < i {
                        assert(v@[b] == '\n');
                    }
                    if b > i {
                        assert(v@[i as int] == '\n');
                    }
                    assert(b == i);
                }
            }
            start = i + 1;
        }
        i = i + 1;
    }
    assert(is_line(v@, start as int, n as int));
    let last = line_says_disabled(&v, start, n, &marker);
    if !last {
        assert forall|a: int, b: int| #[trigger] is_line(v@, a, b) implies !line_reports_disabled(v@.subrange(a, b)) by {
            if a >= start {
                if a > start {
                    assert(v@[a - 1] == '\n');
                }
                assert(a == start);
                if b < n {
                    assert(v@[b] == '\n');
                }
                assert(b == n);
            }
        }
    }
    last
}

} // verus!
