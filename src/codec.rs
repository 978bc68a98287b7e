use vstd::prelude::*;

verus! {

/// The field separator of the protocol, `|`.
pub const FIELD_SEP: u8 = 124u8;

/// The line feed that ends every line.
pub const LF: u8 = 10u8;

/// The carriage return tolerated before a line feed.
pub const CR: u8 = 13u8;

/// The views of a sequence of byte vectors.
pub open spec fn views(parts: Seq<Vec<u8>>) -> Seq<Seq<u8>> {
    parts.map_values(|p: Vec<u8>| p@)
}

/// `parts` joined with `sep` between each two neighbours.
pub open spec fn join(parts: Seq<Seq<u8>>, sep: Seq<u8>) -> Seq<u8>
    decreases parts.len(),
{
    if parts.len() == 0 {
        Seq::empty()
    } else if parts.len() == 1 {
        parts[0]
    } else {
        join(parts.drop_last(), sep) + sep + parts.last()
    }
}

/// The fields of `s` between the occurrences of `sep`: one more field than
/// there are separators, empty fields included.
pub open spec fn split(s: Seq<u8>, sep: u8) -> Seq<Seq<u8>>
    decreases s.len(),
{
    if s.len() == 0 {
        seq![Seq::empty()]
    } else {
        let pre = split(s.drop_last(), sep);
        if s.last() == sep {
            pre.push(Seq::empty())
        } else {
            pre.update(pre.len() - 1, pre.last().push(s.last()))
        }
    }
}

pub open spec fn is_eol(b: u8) -> bool {
    b == CR || b == LF
}

/// The length of `s` once every trailing carriage return and line feed is cut.
pub open spec fn trimmed_len(s: Seq<u8>) -> nat
    decreases s.len(),
{
    if s.len() == 0 {
        0
    } else if is_eol(s.last()) {
        trimmed_len(s.drop_last())
    } else {
        s.len()
    }
}

/// Appends the bytes of `src` to `out`.
pub fn append_bytes(out: &mut Vec<u8>, src: &[u8])
    ensures
        final(out)@ == old(out)@ + src@,
{
    let ghost start = out@;
    let mut i: usize = 0;
    while i < src.len()
        invariant
            i <= src@.len(),
            out@ == start + src@.subrange(0, i as int),
        decreases src@.len() - i,
    {
        out.push(src[i]);
        i = i + 1;
        assert(out@ =~= start + src@.subrange(0, i as int));
    }
    assert(src@.subrange(0, src@.len() as int) =~= src@);
}

/// Writes `parts` to `writer`, with `sep` between each two neighbours.
pub fn join_write_bytes(writer: &mut Vec<u8>, sep: &[u8], parts: &[Vec<u8>])
    ensures
        final(writer)@ == old(writer)@ + join(views(parts@), sep@),
{
    if parts.len() == 0 {
        assert(views(parts@) =~= Seq::<Seq<u8>>::empty());
        assert(writer@ =~= writer@ + Seq::<u8>::empty());
        return;
    }
    let ghost start = writer@;
    append_bytes(writer, parts[0].as_slice());
    assert(views(parts@.subrange(0, 1)) =~= seq![parts@[0]@]);
    let mut i: usize = 1;
    while i < parts.len()
        invariant
            1 <= i <= parts@.len(),
            writer@ == start + join(views(parts@.subrange(0, i as int)), sep@),
        decreases parts@.len() - i,
    {
        append_bytes(writer, sep);
        append_bytes(writer, parts[i].as_slice());
        let ghost prev = views(parts@.subrange(0, i as int));
        let ghost next = views(parts@.subrange(0, i + 1));
        assert(next.drop_last() =~= prev);
        assert(next.last() == parts@[i as int]@);
        i = i + 1;
        assert(writer@ =~= start + join(next, sep@));
    }
    assert(parts@.subrange(0, parts@.len() as int) =~= parts@);
}

/// Cuts `line` into its `|`-separated fields.
pub fn split_fields(line: &[u8]) -> (r: Vec<Vec<u8>>)
    ensures
        views(r@) == split(line@, FIELD_SEP),
{
    let mut fields: Vec<Vec<u8>> = Vec::new();
    let mut cur: Vec<u8> = Vec::new();
    let mut i: usize = 0;
    assert(line@.subrange(0, 0) =~= Seq::<u8>::empty());
    assert(views(fields@).push(cur@) =~= split(line@.subrange(0, 0), FIELD_SEP));
    while i < line.len()
        invariant
            i <= line@.len(),
            views(fields@).push(cur@) == split(line@.subrange(0, i as int), FIELD_SEP),
        decreases line@.len() - i,
    {
        let b = line[i];
        let ghost pre = line@.subrange(0, i as int);
        let ghost post = line@.subrange(0, i + 1);
        assert(post.drop_last() =~= pre);
        assert(post.last() == b);
        if b == FIELD_SEP {
            fields.push(cur);
            cur = Vec::new();
            assert(views(fields@).push(cur@) =~= split(post, FIELD_SEP));
        } else {
            let ghost old_fields = views(fields@);
            let ghost old_cur = cur@;
            cur.push(b);
            assert(views(fields@) == old_fields);
            assert(views(fields@).push(cur@) =~= old_fields.push(old_cur).update(
                old_fields.len() as int,
                old_cur.push(b),
            ));
        }
        i = i + 1;
    }
    assert(line@.subrange(0, line@.len() as int) =~= line@);
    fields.push(cur);
    assert(views(fields@) =~= split(line@, FIELD_SEP));
    fields
}

/// The length of `line` without its trailing carriage returns and line feeds.
pub fn trim_line_end(line: &[u8]) -> (n: usize)
    ensures
        n == trimmed_len(line@),
        n <= line@.len(),
{
    let mut n: usize = line.len();
    assert(line@.subrange(0, n as int) =~= line@);
    while n > 0 && (line[n - 1] == CR || line[n - 1] == LF)
        invariant
            n <= line@.len(),
            trimmed_len(line@) == trimmed_len(line@.subrange(0, n as int)),
        decreases n,
    {
        assert(line@.subrange(0, n as int).drop_last() =~= line@.subrange(0, n - 1));
        n = n - 1;
    }
    n
}

/// A copy of the first `n` bytes of `s`.
pub fn copy_prefix(s: &[u8], n: usize) -> (r: Vec<u8>)
    requires
        n <= s@.len(),
    ensures
        r@ == s@.subrange(0, n as int),
{
    let mut r: Vec<u8> = Vec::new();
    let mut i: usize = 0;
    while i < n
        invariant
            i <= n <= s@.len(),
            r@ == s@.subrange(0, i as int),
        decreases n - i,
    {
        r.push(s[i]);
        i = i + 1;
        assert(r@ =~= s@.subrange(0, i as int));
    }
    r
}

/// Whether two byte strings are equal.
pub fn bytes_eq(a: &[u8], b: &[u8]) -> (r: bool)
    ensures
        r == (a@ == b@),
{
    if a.len() != b.len() {
        return false;
    }
    let mut i: usize = 0;
    while i < a.len()
        invariant
            i <= a@.len(),
            a@.len() == b@.len(),
            forall|k: int| 0 <= k < i ==> a@[k] == b@[k],
        decreases a@.len() - i,
    {
        if a[i] != b[i] {
            assert(a@[i as int] != b@[i as int]);
            return false;
        }
        i = i + 1;
    }
    assert(a@ =~= b@);
    true
}

} // verus!
