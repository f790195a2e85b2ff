use vstd::prelude::*;
use crate::text::{byte_len, chars_of, chars_byte_len, join, join_strings, lines, lit, push_char,
    split_lines, split_whitespace, str_views, string_of, trim, trim_chars, views, words,
    lemma_str_views_push};

verus! {

/// The state of breaking text into chunks: the chunks so far and the line being filled.
pub type Chunking = (Seq<Seq<char>>, Seq<char>);

/// Adds a word and a space to the line being filled; when the line would then pass `len - 2`
/// bytes, the line and a line break are closed first, and the word starts the next line.
pub open spec fn chunk_word(st: Chunking, w: Seq<char>, len: nat) -> Chunking {
    if byte_len(st.1) + byte_len(w) > len - 2 {
        (st.0 + seq![st.1, "\n"@], w + " "@)
    } else {
        (st.0, st.1 + w + " "@)
    }
}

/// Adds words in order.
pub open spec fn chunk_words(st: Chunking, ws: Seq<Seq<char>>, len: nat) -> Chunking
    decreases ws.len(),
{
    if ws.len() == 0 {
        st
    } else {
        chunk_word(chunk_words(st, ws.drop_last(), len), ws.last(), len)
    }
}

/// Chunks the lines in order: the words of each, then the line and a line break are closed.
pub open spec fn chunk_lines(ls: Seq<Seq<char>>, len: nat) -> Chunking
    decreases ls.len(),
{
    if ls.len() == 0 {
        (seq![], seq![])
    } else {
        let st = chunk_words(chunk_lines(ls.drop_last(), len), words(ls.last()), len);
        (st.0 + seq![st.1, "\n"@], seq![])
    }
}

/// The chunks of a text wrapped at `len` bytes: a line break is its own chunk.
pub open spec fn chunks(s: Seq<char>, len: nat) -> Seq<Seq<char>> {
    let st = chunk_lines(lines(s), len);
    if st.1.len() > 0 {
        st.0.push(st.1)
    } else {
        st.0
    }
}

fn close_line(ret: &mut Vec<String>, buf: String)
    ensures
        str_views(final(ret)@) == str_views(old(ret)@) + seq![buf@, "\n"@],
{
    let ghost before = ret@;
    proof { lemma_str_views_push(ret@, buf); }
    ret.push(buf);
    let nl = lit("\n");
    proof { lemma_str_views_push(ret@, nl); }
    ret.push(nl);
    assert(str_views(ret@) =~= str_views(before) + seq![buf@, "\n"@]);
}

/// Whether no line of a text has a word.
pub open spec fn wordless(s: Seq<char>) -> bool {
    forall|k: int| 0 <= k < lines(s).len() ==> #[trigger] words(lines(s)[k]).len() == 0
}

/// Breaks a text into chunks of lines of words, each line under `len - 2` bytes but for a
/// single longer word. A width under 2 is refused unless the text has no word to place.
pub fn chunkify(s: &str, len: usize) -> (r: Vec<String>)
    requires
        2 <= len || wordless(s@),
    ensures
        str_views(r@) == chunks(s@, len as nat),
{
    let ls = split_lines(&chars_of(s));
    let ghost lv = lines(s@);
    let mut ret: Vec<String> = Vec::new();
    let mut buf = String::new();
    for i in 0..ls.len()
        invariant
            2 <= len || (forall|k: int| 0 <= k < lv.len() ==> #[trigger] words(lv[k]).len() == 0),
            views(ls@) == lv,
            (str_views(ret@), buf@) == chunk_lines(lv.take(i as int), len as nat),
    {
        assert(lv.take(i + 1).drop_last() =~= lv.take(i as int));
        assert(lv.take(i + 1).last() == ls@[i as int]@);
        let ws = split_whitespace(&ls[i]);
        let ghost st0 = chunk_lines(lv.take(i as int), len as nat);
        let ghost wv = words(ls@[i as int]@);
        assert(wv == words(lv[i as int]));
        for j in 0..ws.len()
            invariant
                2 <= len || wv.len() == 0,
                views(ws@) == wv,
                (str_views(ret@), buf@) == chunk_words(st0, wv.take(j as int), len as nat),
        {
            assert(wv.take(j + 1).drop_last() =~= wv.take(j as int));
            assert(wv.take(j + 1).last() == ws@[j as int]@);
            let w = &ws[j];
            let b = chars_byte_len(&chars_of(buf.as_str()));
            let n = chars_byte_len(w);
            if b + n > (len - 2) as u128 {
                let full = buf;
                buf = String::new();
                close_line(&mut ret, full);
            }
            let ghost pre = buf@;
            let ws_str = string_of(w);
            buf.append(ws_str.as_str());
            push_char(&mut buf, ' ');
            proof {
                reveal_strlit(" ");
            }
            assert(buf@ =~= pre + w@ + " "@);
        }
        assert(wv.take(ws.len() as int) =~= wv);
        let full = buf;
        buf = String::new();
        close_line(&mut ret, full);
    }
    assert(lv.take(ls.len() as int) =~= lv);
    if chars_of(buf.as_str()).len() > 0 {
        proof { lemma_str_views_push(ret@, buf); }
        ret.push(buf);
    }
    ret
}

/// The lines of a text to render as an image: wrapped at 80 bytes, then trimmed, each line
/// trimmed too.
pub open spec fn render_lines_spec(s: Seq<char>) -> Seq<Seq<char>> {
    let ls = lines(trim(join(chunks(s, 80), seq![])));
    Seq::new(ls.len(), |i: int| trim(ls[i]))
}

/// The lines of a text to render as an image, as `render_lines_spec` says.
pub fn render_lines(input: &str) -> (r: Vec<String>)
    ensures
        str_views(r@) == render_lines_spec(input@),
{
    let parts = chunkify(input, 80);
    let whole = join_strings(&parts, "");
    let t = trim_chars(&chars_of(whole.as_str()));
    let ls = split_lines(&t);
    let ghost lv = lines(trim(join(chunks(input@, 80), seq![])));
    assert(""@ =~= Seq::<char>::empty()) by {
        reveal_strlit("");
    }
    assert(views(ls@) == lv);
    let mut r: Vec<String> = Vec::new();
    for i in 0..ls.len()
        invariant
            views(ls@) == lv,
            str_views(r@) =~= Seq::new(i as nat, |j: int| trim(lv[j])),
    {
        let x = string_of(&trim_chars(&ls[i]));
        proof {
            lemma_str_views_push(r@, x);
            assert(ls@[i as int]@ == lv[i as int]);
        }
        r.push(x);
    }
    r
}

} // verus!
