//! Small string algorithms the resolution layer is built on: splitting on a
//! separator character, joining with a separator, and joining path segments.
use vstd::prelude::*;

verus! {

/// The decomposition of `s` at every occurrence of `sep`: always at least one
/// part, `n + 1` parts for `n` separators, parts free of `sep`.
pub open spec fn split_str(s: Seq<char>, sep: char) -> Seq<Seq<char>>
    decreases s.len(),
{
    if s.len() == 0 {
        seq![Seq::<char>::empty()]
    } else {
        let rest = split_str(s.drop_first(), sep);
        if s[0] == sep {
            seq![Seq::<char>::empty()] + rest
        } else {
            seq![seq![s[0]] + rest[0]] + rest.drop_first()
        }
    }
}

pub proof fn lemma_split_str_len(s: Seq<char>, sep: char)
    ensures
        split_str(s, sep).len() >= 1,
    decreases s.len(),
{
    if s.len() == 0 {
    } else {
        lemma_split_str_len(s.drop_first(), sep);
    }
}

/// The parts interleaved with `sep`: the inverse reading of `split_str`.
pub open spec fn join_str(parts: Seq<Seq<char>>, sep: char) -> Seq<char>
    decreases parts.len(),
{
    if parts.len() == 0 {
        Seq::<char>::empty()
    } else if parts.len() == 1 {
        parts[0]
    } else {
        parts[0] + seq![sep] + join_str(parts.drop_first(), sep)
    }
}

/// Splits `s` at every occurrence of `sep`, keeping empty parts.
pub fn split_on(s: &str, sep: char) -> (r: Vec<String>)
    ensures
        r.deep_view() == split_str(s@, sep),
        r.len() >= 1,
{
    let len = s.unicode_len();
    let mut parts: Vec<String> = Vec::new();
    let mut start: usize = 0;
    let mut i: usize = 0;
    proof {
        lemma_split_str_len(s@, sep);
        assert(s@.skip(0) =~= s@);
        assert(split_str(s@, sep) =~= parts.deep_view()
            + seq![s@.subrange(0, 0) + split_str(s@.skip(0), sep)[0]]
            + split_str(s@.skip(0), sep).drop_first());
    }
    while i < len
        invariant
            start <= i <= len,
            len == s@.len(),
            split_str(s@.skip(i as int), sep).len() >= 1,
            split_str(s@, sep) == parts.deep_view()
                + seq![s@.subrange(start as int, i as int) + split_str(s@.skip(i as int), sep)[0]]
                + split_str(s@.skip(i as int), sep).drop_first(),
        decreases len - i,
    {
        let ghost sk = s@.skip(i as int);
        let ghost sk1 = s@.skip(i as int + 1);
        proof {
            lemma_split_str_len(sk1, sep);
            assert(sk.len() > 0);
            assert(sk[0] == s@[i as int]);
            assert(sk.drop_first() =~= sk1);
        }
        let ghost old_parts = parts.deep_view();
        let ghost cur = s@.subrange(start as int, i as int);
        let c = s.get_char(i);
        if c == sep {
            parts.push(s.substring_char(start, i).to_owned());
            proof {
                assert(split_str(sk, sep) =~= seq![Seq::<char>::empty()] + split_str(sk1, sep));
                assert(parts.deep_view() =~= old_parts.push(cur));
                assert(split_str(sk, sep)[0] =~= Seq::<char>::empty());
                assert(cur + Seq::<char>::empty() =~= cur);
                assert(split_str(sk, sep).drop_first() =~= split_str(sk1, sep));
                assert(split_str(sk1, sep) =~= seq![split_str(sk1, sep)[0]]
                    + split_str(sk1, sep).drop_first());
                assert(s@.subrange(i as int + 1, i as int + 1) + split_str(sk1, sep)[0]
                    =~= split_str(sk1, sep)[0]);
                assert(old_parts + seq![cur] + split_str(sk1, sep)
                    =~= parts.deep_view()
                        + seq![s@.subrange(i as int + 1, i as int + 1) + split_str(sk1, sep)[0]]
                        + split_str(sk1, sep).drop_first());
            }
            start = i + 1;
        } else {
            proof {
                assert(split_str(sk, sep) =~= seq![seq![s@[i as int]] + split_str(sk1, sep)[0]]
                    + split_str(sk1, sep).drop_first());
                assert(split_str(sk, sep)[0] =~= seq![s@[i as int]] + split_str(sk1, sep)[0]);
                assert(split_str(sk, sep).drop_first() =~= split_str(sk1, sep).drop_first());
                assert(s@.subrange(start as int, i as int + 1) =~= cur.push(s@[i as int]));
                assert(cur + (seq![s@[i as int]] + split_str(sk1, sep)[0])
                    =~= s@.subrange(start as int, i as int + 1) + split_str(sk1, sep)[0]);
            }
        }
        i = i + 1;
    }
    proof {
        assert(s@.skip(len as int) =~= Seq::<char>::empty());
        assert(split_str(s@.skip(len as int), sep) =~= seq![Seq::<char>::empty()]);
        assert(s@.subrange(start as int, len as int) + Seq::<char>::empty()
            =~= s@.subrange(start as int, len as int));
        assert(split_str(s@, sep) =~= parts.deep_view().push(s@.subrange(
            start as int,
            len as int,
        )));
    }
    let ghost old_parts = parts.deep_view();
    parts.push(s.substring_char(start, len).to_owned());
    proof {
        assert(parts.deep_view() =~= old_parts.push(s@.subrange(start as int, len as int)));
    }
    parts
}

/// Joins the parts with a single space between neighbours.
pub fn join_space(parts: &Vec<String>) -> (r: String)
    ensures
        r@ == join_str(parts.deep_view(), ' '),
{
    let len = parts.len();
    if len == 0 {
        return String::new();
    }
    let mut acc: String = parts[0].clone();
    let mut i: usize = 1;
    proof {
        reveal_strlit(" ");
        assert(" "@ =~= seq![' ']);
        if len == 1 {
            assert(join_str(parts.deep_view(), ' ') == parts.deep_view()[0]);
        } else {
            assert(parts.deep_view().drop_first() =~= parts.deep_view().skip(1));
        }
    }
    while i < len
        invariant
            1 <= i <= len,
            len == parts.len(),
            " "@ == seq![' '],
            i < len ==> join_str(parts.deep_view(), ' ') == acc@ + seq![' '] + join_str(
                parts.deep_view().skip(i as int),
                ' ',
            ),
            i == len ==> join_str(parts.deep_view(), ' ') == acc@,
        decreases len - i,
    {
        let ghost deep = parts.deep_view();
        let ghost sk = deep.skip(i as int);
        proof {
            assert(sk.len() == len - i);
            assert(sk[0] == deep[i as int]);
            if i + 1 < len {
                assert(sk.drop_first() =~= deep.skip(i as int + 1));
            }
        }
        acc.append(" ");
        acc.append(parts[i].as_str());
        i = i + 1;
    }
    acc
}

/// Where a path joined under `parent` ends up: an absolute `child` stands
/// alone; otherwise `child` is appended to `parent`, with a `/` between them
/// unless `parent` already ends in one.
pub open spec fn join_path_spec(parent: Seq<char>, child: Seq<char>) -> Seq<char> {
    if child.len() > 0 && child[0] == '/' {
        child
    } else if parent.len() > 0 && parent[parent.len() - 1] == '/' {
        parent + child
    } else {
        parent + seq!['/'] + child
    }
}

/// Joins `child` onto `parent` as `join_path_spec` describes.
pub fn join_path(parent: &str, child: &str) -> (r: String)
    ensures
        r@ == join_path_spec(parent@, child@),
{
    let clen = child.unicode_len();
    if clen > 0 && child.get_char(0) == '/' {
        return child.to_owned();
    }
    let mut r = parent.to_owned();
    let plen = parent.unicode_len();
    if !(plen > 0 && parent.get_char(plen - 1) == '/') {
        proof {
            reveal_strlit("/");
            assert("/"@ =~= seq!['/']);
        }
        r.append("/");
    }
    r.append(child);
    r
}

} // verus!
