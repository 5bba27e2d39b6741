use vstd::prelude::*;
use crate::text::{chars_of, decimal_text, has_substring, str_contains, str_starts_with, texts};

verus! {

/// The file written and removed on each drive to keep it spinning.
pub const KEEPALIVE_FILE: &'static str = ".vyv_keepalive";

/// Seconds between two pings of the drives.
pub const PING_INTERVAL_SECS: u64 = 60;

/// Where volumes are mounted.
pub const VOLUMES_DIR: &'static str = "/Volumes";

/// A volume name worth listing: neither hidden (leading `.`) nor a temporary disk-image
/// mount (`dmg.` prefix).
pub open spec fn candidate_volume_name(name: Seq<char>) -> bool {
    !"."@.is_prefix_of(name) && !"dmg."@.is_prefix_of(name)
}

/// Whether a volume name is worth listing.
pub fn is_candidate_volume_name(name: &str) -> (r: bool)
    ensures
        r == candidate_volume_name(name@),
{
    !str_starts_with(name, ".") && !str_starts_with(name, "dmg.")
}

/// Whether `diskutil info` output describes a disk image.
pub fn info_describes_disk_image(info: &str) -> (r: bool)
    ensures
        r == has_substring(info@, "Disk Image"@),
{
    str_contains(info, "Disk Image")
}

/// `base` joined with the relative `name`, as `Path::join` does: a `/` is put between
/// them unless `base` is empty or already ends with one.
pub open spec fn joined_path(base: Seq<char>, name: Seq<char>) -> Seq<char> {
    if base.len() == 0 || base.last() == '/' {
        base + name
    } else {
        base + seq!['/'] + name
    }
}

/// The keep-alive file on a drive.
pub fn keepalive_path(drive: &str) -> (r: String)
    ensures
        r@ == joined_path(drive@, KEEPALIVE_FILE@),
{
    let n = drive.unicode_len();
    let mut s = String::from_str(drive);
    if n > 0 && drive.get_char(n - 1) != '/' {
        crate::text::push_char(&mut s, '/');
    }
    s.append(KEEPALIVE_FILE);
    s
}

/// What a ping writes: the current Unix time in seconds, in decimal.
pub fn ping_contents(unix_secs: u64) -> (r: String)
    ensures
        r@ == decimal_text(unix_secs as nat),
{
    crate::text::decimal_string(unix_secs)
}

/// Lexicographic order on texts, character by character (the order of their UTF-8 bytes).
pub open spec fn text_le(a: Seq<char>, b: Seq<char>) -> bool
    decreases a.len(),
{
    if a.len() == 0 {
        true
    } else if b.len() == 0 {
        false
    } else if a[0] != b[0] {
        (a[0] as int) < (b[0] as int)
    } else {
        text_le(a.drop_first(), b.drop_first())
    }
}

proof fn lemma_text_le_total(a: Seq<char>, b: Seq<char>)
    ensures
        text_le(a, b) || text_le(b, a),
    decreases a.len(),
{
    if a.len() > 0 && b.len() > 0 {
        if a[0] == b[0] {
            lemma_text_le_total(a.drop_first(), b.drop_first());
        } else {
            assert((a[0] as int) != (b[0] as int));
        }
    }
}

proof fn lemma_text_le_transitive(a: Seq<char>, b: Seq<char>, c: Seq<char>)
    requires
        text_le(a, b),
        text_le(b, c),
    ensures
        text_le(a, c),
    decreases a.len(),
{
    if a.len() > 0 && b.len() > 0 && c.len() > 0 && a[0] == b[0] && b[0] == c[0] {
        lemma_text_le_transitive(a.drop_first(), b.drop_first(), c.drop_first());
    }
}

/// Whether `a` comes before or equals `b` in lexicographic order.
pub fn text_less_eq(a: &Vec<char>, b: &Vec<char>) -> (r: bool)
    ensures
        r == text_le(a@, b@),
{
    let mut i: usize = 0;
    assert(a@.subrange(0, a@.len() as int) =~= a@);
    assert(b@.subrange(0, b@.len() as int) =~= b@);
    while i < a.len() && i < b.len() && a[i] == b[i]
        invariant
            i <= a@.len(),
            i <= b@.len(),
            a@.subrange(0, i as int) == b@.subrange(0, i as int),
            text_le(a@, b@) == text_le(a@.subrange(i as int, a@.len() as int), b@.subrange(i as int, b@.len() as int)),
        decreases a.len() - i,
    {
        let ghost sa = a@.subrange(i as int, a@.len() as int);
        let ghost sb = b@.subrange(i as int, b@.len() as int);
        assert(sa.drop_first() =~= a@.subrange(i + 1, a@.len() as int));
        assert(sb.drop_first() =~= b@.subrange(i + 1, b@.len() as int));
        assert(a@.subrange(0, i + 1) =~= a@.subrange(0, i as int).push(a@[i as int]));
        assert(b@.subrange(0, i + 1) =~= b@.subrange(0, i as int).push(b@[i as int]));
        i = i + 1;
    }
    let ghost sa = a@.subrange(i as int, a@.len() as int);
    let ghost sb = b@.subrange(i as int, b@.len() as int);
    if i == a.len() {
        assert(sa.len() == 0);
        true
    } else if i == b.len() {
        assert(sb.len() == 0);
        false
    } else {
        assert(sa[0] == a@[i as int] && sb[0] == b@[i as int]);
        a[i] < b[i]
    }
}

/// The names in lexicographic order.
pub open spec fn sorted_texts(s: Seq<Seq<char>>) -> bool {
    forall|i: int, j: int| 0 <= i < j < s.len() ==> text_le(#[trigger] s[i], #[trigger] s[j])
}

/// Sorts drive names in lexicographic order, keeping every name (the order in which the
/// mount points `/Volumes/{name}` sort).
pub fn sort_drive_names(names: Vec<String>) -> (r: Vec<String>)
    ensures
        sorted_texts(texts(r@)),
        texts(r@).to_multiset() == texts(names@).to_multiset(),
{
    let mut out: Vec<String> = Vec::new();
    let mut keys: Vec<Vec<char>> = Vec::new();
    let mut i: usize = 0;
    broadcast use vstd::seq_lib::group_to_multiset_ensures;
    while i < names.len()
        invariant
            i <= names@.len(),
            keys@.len() == out@.len(),
            forall|k: int| 0 <= k < out@.len() ==> #[trigger] keys@[k]@ == out@[k]@,
            sorted_texts(texts(out@)),
            texts(out@).to_multiset() == texts(names@).take(i as int).to_multiset(),
        decreases names.len() - i,
    {
        let key = chars_of(names[i].as_str());
        let mut pos: usize = out.len();
        while pos > 0 && !text_less_eq(&keys[pos - 1], &key)
            invariant
                pos <= out@.len(),
                keys@.len() == out@.len(),
                forall|k: int| 0 <= k < out@.len() ==> #[trigger] keys@[k]@ == out@[k]@,
                forall|k: int| pos <= k < out@.len() ==> !text_le(#[trigger] out@[k]@, key@),
            decreases pos,
        {
            pos = pos - 1;
        }
        let ghost before = texts(out@);
        let ghost x = names@[i as int]@;
        proof {
            assert forall|k: int| 0 <= k < pos implies text_le(#[trigger] before[k], x) by {
                if pos > 0 {
                    assert(text_le(before[pos - 1], x));
                    if k < pos - 1 {
                        lemma_text_le_transitive(before[k], before[pos - 1], x);
                    }
                }
            }
            assert forall|k: int| pos <= k < before.len() implies text_le(x, #[trigger] before[k]) by {
                lemma_text_le_total(x, before[k]);
            }
        }
        out.insert(pos, names[i].clone());
        keys.insert(pos, key);
        proof {
            let after = texts(out@);
            assert(after =~= before.insert(pos as int, x));
            assert forall|a: int, b: int| 0 <= a < b < after.len() implies text_le(#[trigger] after[a], #[trigger] after[b]) by {
                if b < pos {
                } else if b == pos {
                } else if a < pos {
                    lemma_text_le_transitive(after[a], x, after[b]);
                } else if a == pos {
                } else {
                }
            }
            assert(names@.take(i + 1) =~= names@.take(i as int).push(names@[i as int]));
            assert(texts(names@).take(i + 1) =~= texts(names@).take(i as int).push(x));
            vstd::seq_lib::to_multiset_insert(before, pos as int, x);
            assert(after.to_multiset() == before.to_multiset().insert(x));
            texts(names@).take(i as int).to_multiset_ensures();
            assert(texts(names@).take(i as int).push(x).to_multiset() == texts(names@).take(i as int).to_multiset().insert(x));
        }
        i = i + 1;
    }
    assert(texts(names@).take(i as int) =~= texts(names@));
    out
}

} // verus!
