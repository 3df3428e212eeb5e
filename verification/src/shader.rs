//! The shader builder: splitting a combined source text into its
//! vertex and fragment sections, validating that both sections exist
//! at build time, and the wrapper that owns a linked program handle.
//!
//! The source format is plain text with marker lines: a line
//! containing `#shader` switches the current section to vertex or
//! fragment according to which word the line names, resetting that
//! section's accumulated text; every other line is appended,
//! newline-terminated, to whichever section is current.

use vstd::prelude::*;

use crate::context::GlCommand;
use crate::context::GlContext;
use crate::context::HandleKind;
use crate::context::ResourceError;
use crate::gl_component::GLComponent;

verus! {

/// Which section of the combined source the splitter is currently
/// appending to.
#[derive(Clone, Copy, PartialEq, Eq, Structural, Debug)]
pub enum ShaderType {
    /// No marker seen yet: lines are dropped.
    Unset,
    /// Lines belong to the vertex section.
    Vertex,
    /// Lines belong to the fragment section.
    Fragment,
}

/// Why a shader could not be built.
#[derive(Clone, Copy, PartialEq, Eq, Structural, Debug)]
pub enum ShaderError {
    /// The fragment section was never populated.
    MissingFragmentSource,
    /// The vertex section was never populated.
    MissingVertexSource,
}

/// The pattern occurs in `s` starting at position `i`.
pub open spec fn contains_at(s: Seq<char>, pat: Seq<char>, i: int) -> bool {
    0 <= i && i + pat.len() <= s.len() && s.subrange(i, i + pat.len() as int) == pat
}

/// The pattern occurs somewhere in `s`.
pub open spec fn contains_seq(s: Seq<char>, pat: Seq<char>) -> bool {
    exists|i: int| contains_at(s, pat, i)
}

/// A marker line: it mentions the section-switching token.
pub open spec fn is_marker_line(l: Seq<char>) -> bool {
    contains_seq(l, "#shader"@)
}

/// The marker names the vertex section.
pub open spec fn names_vertex(l: Seq<char>) -> bool {
    contains_seq(l, "vertex"@)
}

/// The marker names the fragment section.
pub open spec fn names_fragment(l: Seq<char>) -> bool {
    contains_seq(l, "fragment"@)
}

/// Position of the first line feed at or after `i`, or the length of
/// `s` if none follows.
pub open spec fn next_newline(s: Seq<char>, i: int) -> int
    decreases s.len() - i,
{
    if i < 0 || i >= s.len() {
        s.len() as int
    } else if s[i] == '\n' {
        i
    } else {
        next_newline(s, i + 1)
    }
}

/// A position with no line feed before it and a line feed (or the end)
/// at it is exactly [`next_newline`].
pub proof fn lemma_next_newline_at(s: Seq<char>, i: int, j: int)
    requires
        0 <= i <= j <= s.len(),
        forall|k: int| i <= k < j ==> s[k] != '\n',
        j == s.len() || s[j] == '\n',
    ensures
        next_newline(s, i) == j,
    decreases j - i,
{
    if i < j {
        assert(s[i] != '\n');
        lemma_next_newline_at(s, i + 1, j);
    }
}

/// A line as the splitter sees it: the trailing carriage return of a
/// carriage-return-line-feed ending is stripped.
pub open spec fn strip_cr(l: Seq<char>) -> Seq<char> {
    if l.len() > 0 && l.last() == '\r' {
        l.drop_last()
    } else {
        l
    }
}

/// The lines of `s`, split at line feeds.  A line before a line feed
/// loses a trailing carriage return; text after the last line feed is
/// a final line kept verbatim, and a trailing line feed opens no empty
/// final line.
pub open spec fn spec_lines_of(s: Seq<char>) -> Seq<Seq<char>>
    decreases s.len(),
{
    if s.len() == 0 {
        Seq::<Seq<char>>::empty()
    } else {
        let j = next_newline(s, 0);
        if 0 <= j < s.len() {
            seq![strip_cr(s.take(j))] + spec_lines_of(s.skip(j + 1))
        } else {
            seq![s]
        }
    }
}

/// One step of the splitter: how a single line transforms the
/// accumulated vertex text, fragment text and current section.  A
/// marker switches the current section and resets that section's
/// accumulated text; a marker naming neither section changes nothing
/// and is dropped.
pub open spec fn parse_step(
    vert: Seq<char>,
    frag: Seq<char>,
    section: ShaderType,
    l: Seq<char>,
) -> (Seq<char>, Seq<char>, ShaderType) {
    if is_marker_line(l) {
        if names_vertex(l) {
            (Seq::<char>::empty(), frag, ShaderType::Vertex)
        } else if names_fragment(l) {
            (vert, Seq::<char>::empty(), ShaderType::Fragment)
        } else {
            (vert, frag, section)
        }
    } else {
        match section {
            ShaderType::Vertex => (vert + l + seq!['\n'], frag, section),
            ShaderType::Fragment => (vert, frag + l + seq!['\n'], section),
            ShaderType::Unset => (vert, frag, section),
        }
    }
}

/// The splitter folded over a sequence of lines.
pub open spec fn parse_run(
    vert: Seq<char>,
    frag: Seq<char>,
    section: ShaderType,
    ls: Seq<Seq<char>>,
) -> (Seq<char>, Seq<char>, ShaderType)
    decreases ls.len(),
{
    if ls.len() == 0 {
        (vert, frag, section)
    } else {
        let st = parse_step(vert, frag, section, ls[0]);
        parse_run(st.0, st.1, st.2, ls.drop_first())
    }
}

/// The vertex and fragment texts that splitting `s` produces.
pub open spec fn split_shader_source(s: Seq<char>) -> (Seq<char>, Seq<char>) {
    let r = parse_run(Seq::<char>::empty(), Seq::<char>::empty(), ShaderType::Unset, spec_lines_of(s));
    (r.0, r.1)
}

/// The lines of a section joined back together, each line followed by
/// one line feed.
pub open spec fn concat_lines(ls: Seq<Seq<char>>) -> Seq<char>
    decreases ls.len(),
{
    if ls.len() == 0 {
        Seq::<char>::empty()
    } else {
        ls[0] + seq!['\n'] + concat_lines(ls.drop_first())
    }
}

/// Folding the splitter over concatenated line sequences runs the
/// first sequence, then the second from the state the first left.
pub proof fn lemma_parse_run_append(
    vert: Seq<char>,
    frag: Seq<char>,
    section: ShaderType,
    ls1: Seq<Seq<char>>,
    ls2: Seq<Seq<char>>,
)
    ensures
        parse_run(vert, frag, section, ls1 + ls2) == {
            let m = parse_run(vert, frag, section, ls1);
            parse_run(m.0, m.1, m.2, ls2)
        },
    decreases ls1.len(),
{
    if ls1.len() == 0 {
        assert(ls1 + ls2 =~= ls2);
    } else {
        let st = parse_step(vert, frag, section, ls1[0]);
        assert((ls1 + ls2)[0] == ls1[0]);
        assert((ls1 + ls2).drop_first() =~= ls1.drop_first() + ls2);
        lemma_parse_run_append(st.0, st.1, st.2, ls1.drop_first(), ls2);
    }
}

/// While the vertex section is current, a run of non-marker lines
/// appends exactly those lines, each followed by a newline, in order.
pub proof fn lemma_parse_run_vertex(vert: Seq<char>, frag: Seq<char>, ls: Seq<Seq<char>>)
    requires
        forall|i: int| 0 <= i < ls.len() ==> !is_marker_line(#[trigger] ls[i]),
    ensures
        parse_run(vert, frag, ShaderType::Vertex, ls) == (
            vert + concat_lines(ls),
            frag,
            ShaderType::Vertex,
        ),
    decreases ls.len(),
{
    if ls.len() == 0 {
        assert(vert + concat_lines(ls) =~= vert);
    } else {
        assert(!is_marker_line(ls[0]));
        lemma_parse_run_vertex(vert + ls[0] + seq!['\n'], frag, ls.drop_first());
        assert((vert + ls[0] + seq!['\n']) + concat_lines(ls.drop_first()) =~= vert + concat_lines(
            ls,
        ));
    }
}

/// While the fragment section is current, a run of non-marker lines
/// appends exactly those lines, each followed by a newline, in order.
pub proof fn lemma_parse_run_fragment(vert: Seq<char>, frag: Seq<char>, ls: Seq<Seq<char>>)
    requires
        forall|i: int| 0 <= i < ls.len() ==> !is_marker_line(#[trigger] ls[i]),
    ensures
        parse_run(vert, frag, ShaderType::Fragment, ls) == (
            vert,
            frag + concat_lines(ls),
            ShaderType::Fragment,
        ),
    decreases ls.len(),
{
    if ls.len() == 0 {
        assert(frag + concat_lines(ls) =~= frag);
    } else {
        assert(!is_marker_line(ls[0]));
        lemma_parse_run_fragment(vert, frag + ls[0] + seq!['\n'], ls.drop_first());
        assert((frag + ls[0] + seq!['\n']) + concat_lines(ls.drop_first()) =~= frag + concat_lines(
            ls,
        ));
    }
}

/// Law: splitting reconstructs each section exactly, from any starting
/// state.  For lines that are a vertex marker, then the vertex lines,
/// then a fragment marker, then the fragment lines, with no marker
/// among the section lines, the splitter yields exactly the non-marker
/// lines between the markers, each followed by a newline, in original
/// order: each marker resets its section, so nothing accumulated
/// before it survives.
pub proof fn lemma_split_round_trip(
    vert0: Seq<char>,
    frag0: Seq<char>,
    section0: ShaderType,
    mv: Seq<char>,
    mf: Seq<char>,
    lv: Seq<Seq<char>>,
    lf: Seq<Seq<char>>,
)
    requires
        is_marker_line(mv),
        names_vertex(mv),
        is_marker_line(mf),
        names_fragment(mf),
        !names_vertex(mf),
        forall|i: int| 0 <= i < lv.len() ==> !is_marker_line(#[trigger] lv[i]),
        forall|i: int| 0 <= i < lf.len() ==> !is_marker_line(#[trigger] lf[i]),
    ensures
        parse_run(vert0, frag0, section0, seq![mv] + lv + seq![mf] + lf) == (
            concat_lines(lv),
            concat_lines(lf),
            ShaderType::Fragment,
        ),
{
    let e = Seq::<char>::empty();
    let ls = seq![mv] + lv + seq![mf] + lf;
    lemma_parse_run_append(vert0, frag0, section0, seq![mv] + lv + seq![mf], lf);
    lemma_parse_run_append(vert0, frag0, section0, seq![mv] + lv, seq![mf]);
    lemma_parse_run_append(vert0, frag0, section0, seq![mv], lv);
    assert(ls =~= (seq![mv] + lv + seq![mf]) + lf);
    assert(seq![mv] + lv + seq![mf] =~= (seq![mv] + lv) + seq![mf]);
    // the vertex marker switches to the vertex section and resets it
    let st1 = parse_step(vert0, frag0, section0, mv);
    assert(st1 == (e, frag0, ShaderType::Vertex));
    assert(seq![mv].drop_first() =~= Seq::<Seq<char>>::empty());
    assert(parse_run(st1.0, st1.1, st1.2, seq![mv].drop_first()) == st1);
    assert(seq![mv][0] == mv);
    assert(parse_run(vert0, frag0, section0, seq![mv]) == (e, frag0, ShaderType::Vertex));
    // the vertex lines accumulate
    lemma_parse_run_vertex(e, frag0, lv);
    assert(e + concat_lines(lv) =~= concat_lines(lv));
    // the fragment marker switches to the fragment section and resets it
    let st2 = parse_step(concat_lines(lv), frag0, ShaderType::Vertex, mf);
    assert(st2 == (concat_lines(lv), e, ShaderType::Fragment));
    assert(seq![mf].drop_first() =~= Seq::<Seq<char>>::empty());
    assert(parse_run(st2.0, st2.1, st2.2, seq![mf].drop_first()) == st2);
    assert(seq![mf][0] == mf);
    assert(parse_run(concat_lines(lv), frag0, ShaderType::Vertex, seq![mf]) == (
        concat_lines(lv),
        e,
        ShaderType::Fragment,
    ));
    // the fragment lines accumulate
    lemma_parse_run_fragment(concat_lines(lv), e, lf);
    assert(e + concat_lines(lf) =~= concat_lines(lf));
}

/// A line suitable for joining: no line feed inside and no trailing
/// carriage return, so that splitting the joined text recovers it
/// verbatim.
pub open spec fn plain_line(l: Seq<char>) -> bool {
    (forall|i: int| 0 <= i < l.len() ==> l[i] != '\n') && (l.len() == 0 || l.last() != '\r')
}

/// Joining plain lines and splitting the text again yields the same
/// lines.
pub proof fn lemma_lines_of_concat(ls: Seq<Seq<char>>)
    requires
        forall|i: int| 0 <= i < ls.len() ==> plain_line(#[trigger] ls[i]),
    ensures
        spec_lines_of(concat_lines(ls)) == ls,
    decreases ls.len(),
{
    if ls.len() == 0 {
        assert(concat_lines(ls).len() == 0);
        assert(spec_lines_of(concat_lines(ls)) =~= ls);
    } else {
        let l0 = ls[0];
        let rest = concat_lines(ls.drop_first());
        let s = concat_lines(ls);
        assert(plain_line(l0));
        assert(s == l0 + seq!['\n'] + rest);
        assert(s.len() == l0.len() + 1 + rest.len());
        assert forall|k: int| 0 <= k < l0.len() implies s[k] != '\n' by {
            assert(s[k] == l0[k]);
        }
        assert(s[l0.len() as int] == '\n');
        lemma_next_newline_at(s, 0, l0.len() as int);
        assert(next_newline(s, 0) == l0.len());
        assert(s.take(l0.len() as int) =~= l0);
        assert(strip_cr(l0) == l0);
        assert(s.skip(l0.len() as int + 1) =~= rest);
        assert forall|i: int|
            0 <= i < ls.drop_first().len() implies plain_line(#[trigger] ls.drop_first()[i]) by {
            assert(ls.drop_first()[i] == ls[i + 1]);
        }
        lemma_lines_of_concat(ls.drop_first());
        assert(spec_lines_of(s) == seq![l0] + ls.drop_first());
        assert(seq![l0] + ls.drop_first() =~= ls);
    }
}

/// Law: full round trip at the text level.  Join a vertex marker line,
/// the vertex lines, a fragment marker line and the fragment lines
/// into one newline-terminated text; splitting that text reconstructs
/// exactly the joined vertex lines and the joined fragment lines.
pub proof fn lemma_split_text_round_trip(
    mv: Seq<char>,
    mf: Seq<char>,
    lv: Seq<Seq<char>>,
    lf: Seq<Seq<char>>,
)
    requires
        plain_line(mv),
        is_marker_line(mv),
        names_vertex(mv),
        plain_line(mf),
        is_marker_line(mf),
        names_fragment(mf),
        !names_vertex(mf),
        forall|i: int|
            0 <= i < lv.len() ==> plain_line(#[trigger] lv[i]) && !is_marker_line(lv[i]),
        forall|i: int|
            0 <= i < lf.len() ==> plain_line(#[trigger] lf[i]) && !is_marker_line(lf[i]),
    ensures
        split_shader_source(concat_lines(seq![mv] + lv + seq![mf] + lf)) == (
            concat_lines(lv),
            concat_lines(lf),
        ),
{
    let all = seq![mv] + lv + seq![mf] + lf;
    assert forall|i: int| 0 <= i < all.len() implies plain_line(#[trigger] all[i]) by {
        if i == 0 {
            assert(all[i] == mv);
        } else if i < 1 + lv.len() {
            assert(all[i] == lv[i - 1]);
        } else if i == 1 + lv.len() {
            assert(all[i] == mf);
        } else {
            assert(all[i] == lf[i - 2 - lv.len()]);
        }
    }
    lemma_lines_of_concat(all);
    lemma_split_shader_source_sections(concat_lines(all), mv, mf, lv, lf);
}

/// Law: splitting a text whose lines are a vertex marker, then the
/// vertex lines, then a fragment marker, then the fragment lines, with
/// no marker among the section lines, reconstructs each section
/// exactly: the non-marker lines between the markers, each followed by
/// a newline, in original order.
pub proof fn lemma_split_shader_source_sections(
    s: Seq<char>,
    mv: Seq<char>,
    mf: Seq<char>,
    lv: Seq<Seq<char>>,
    lf: Seq<Seq<char>>,
)
    requires
        spec_lines_of(s) == seq![mv] + lv + seq![mf] + lf,
        is_marker_line(mv),
        names_vertex(mv),
        is_marker_line(mf),
        names_fragment(mf),
        !names_vertex(mf),
        forall|i: int| 0 <= i < lv.len() ==> !is_marker_line(#[trigger] lv[i]),
        forall|i: int| 0 <= i < lf.len() ==> !is_marker_line(#[trigger] lf[i]),
    ensures
        split_shader_source(s) == (concat_lines(lv), concat_lines(lf)),
{
    lemma_split_round_trip(
        Seq::<char>::empty(),
        Seq::<char>::empty(),
        ShaderType::Unset,
        mv,
        mf,
        lv,
        lf,
    );
}

/// Whether `pat` occurs as a contiguous substring of `hay`.
pub fn contains_sub(hay: &str, pat: &str) -> (r: bool)
    ensures
        r == contains_seq(hay@, pat@),
{
    let hn = hay.unicode_len();
    let pn = pat.unicode_len();
    if pn > hn {
        proof {
            assert forall|i: int| !contains_at(hay@, pat@, i) by {}
        }
        return false;
    }
    let mut i: usize = 0;
    while i <= hn - pn
        invariant
            hn == hay@.len(),
            pn == pat@.len(),
            pn <= hn,
            0 <= i <= hn - pn + 1,
            forall|q: int| 0 <= q < i ==> !contains_at(hay@, pat@, q),
        decreases hn + 1 - pn - i,
    {
        let mut k: usize = 0;
        while k < pn && hay.get_char(i + k) == pat.get_char(k)
            invariant
                hn == hay@.len(),
                pn == pat@.len(),
                pn <= hn,
                i + pn <= hn,
                0 <= k <= pn,
                forall|m: int| 0 <= m < k ==> hay@[i + m] == pat@[m],
            decreases pn - k,
        {
            k += 1;
        }
        if k == pn {
            proof {
                assert(hay@.subrange(i as int, i + pn as int) =~= pat@);
                assert(contains_at(hay@, pat@, i as int));
            }
            return true;
        }
        proof {
            assert(!contains_at(hay@, pat@, i as int)) by {
                if contains_at(hay@, pat@, i as int) {
                    assert(hay@.subrange(i as int, i + pn as int)[k as int] == pat@[k as int]);
                    assert(hay@[i + k as int] == pat@[k as int]);
                }
            }
        }
        i += 1;
    }
    proof {
        assert forall|q: int| !contains_at(hay@, pat@, q) by {
            if contains_at(hay@, pat@, q) {
                assert(0 <= q && q + pn <= hn);
            }
        }
    }
    false
}

/// Accumulates the optional vertex and fragment source texts that a
/// shader is built from.
pub struct ShaderBuilder {
    fragment_src: Option<String>,
    vertex_src: Option<String>,
}

/// The vertex and fragment source texts a successful build hands on:
/// what the driver is asked to compile and link.
pub struct ShaderSources {
    pub vertex: String,
    pub fragment: String,
}

impl ShaderBuilder {
    /// The accumulated fragment section, if one was ever set.
    pub closed spec fn spec_fragment_src(self) -> Option<Seq<char>> {
        match self.fragment_src {
            Some(s) => Some(s@),
            None => None,
        }
    }

    /// The accumulated vertex section, if one was ever set.
    pub closed spec fn spec_vertex_src(self) -> Option<Seq<char>> {
        match self.vertex_src {
            Some(s) => Some(s@),
            None => None,
        }
    }

    /// Split a combined source text into its sections and store both.
    ///
    /// Scanning line by line, a line containing the marker token
    /// switches the current section to vertex or fragment (in that
    /// precedence) according to which word it names and resets that
    /// section's accumulated text; a marker naming neither leaves the
    /// section as it was; every other line is appended to the current
    /// section with a trailing newline, and dropped if no section is
    /// current yet.  Both sections are set afterwards, even if to
    /// empty text, so splitting never fails.
    #[verifier::rlimit(60)]
    pub fn with_shader_source(self, source: String) -> (r: Result<ShaderBuilder, ShaderError>)
        ensures
            r is Ok,
            r->Ok_0.spec_vertex_src() == Some(split_shader_source(source@).0),
            r->Ok_0.spec_fragment_src() == Some(split_shader_source(source@).1),
    {
        let s = source.as_str();
        let n = s.unicode_len();
        let mut vert = String::new();
        let mut frag = String::new();
        let mut section = ShaderType::Unset;
        let mut start: usize = 0;
        proof {
            assert(s@.skip(0) =~= s@);
        }
        while start < n
            invariant
                n == s@.len(),
                0 <= start <= n,
                parse_run(vert@, frag@, section, spec_lines_of(s@.skip(start as int)))
                    == parse_run(
                    Seq::<char>::empty(),
                    Seq::<char>::empty(),
                    ShaderType::Unset,
                    spec_lines_of(s@),
                ),
            decreases n - start,
        {
            let mut j = start;
            while j < n && s.get_char(j) != '\n'
                invariant
                    n == s@.len(),
                    start <= j <= n,
                    forall|k: int| start <= k < j ==> s@[k] != '\n',
                decreases n - j,
            {
                j += 1;
            }
            let mut end = j;
            if j < n {
                if end > start && s.get_char(end - 1) == '\r' {
                    end -= 1;
                }
            }
            let line = s.substring_char(start, end);
            let ghost pre_state = (vert@, frag@, section);
            if contains_sub(line, "#shader") {
                if contains_sub(line, "vertex") {
                    section = ShaderType::Vertex;
                    vert = String::new();
                } else if contains_sub(line, "fragment") {
                    section = ShaderType::Fragment;
                    frag = String::new();
                }
            } else {
                match section {
                    ShaderType::Vertex => {
                        vert.append(line);
                        vert.append("\n");
                    },
                    ShaderType::Fragment => {
                        frag.append(line);
                        frag.append("\n");
                    },
                    ShaderType::Unset => {},
                }
            }
            proof {
                reveal_strlit("\n");
                assert("\n"@ =~= seq!['\n']);
                let suffix = s@.skip(start as int);
                assert(suffix.len() == n - start);
                // the scanned stop position is the first line feed of the suffix
                assert forall|k: int| 0 <= k < j - start implies suffix[k] != '\n' by {
                    assert(s@[k + start] != '\n');
                }
                if j < n {
                    assert(suffix[j - start] == s@[j as int]);
                }
                lemma_next_newline_at(suffix, 0, j - start);
                // the processed line is the first line of the suffix
                if j < n {
                    assert(strip_cr(suffix.take(j - start)) =~= s@.subrange(
                        start as int,
                        end as int,
                    )) by {
                        assert(suffix.take(j - start) =~= s@.subrange(start as int, j as int));
                        if end < j {
                            assert(s@.subrange(start as int, j as int).last() == s@[j - 1]);
                            assert(s@.subrange(start as int, j as int).drop_last() =~= s@.subrange(
                                start as int,
                                end as int,
                            ));
                        }
                    }
                    assert(suffix.skip(j - start + 1) =~= s@.skip(j + 1));
                    assert(spec_lines_of(suffix) == seq![line@] + spec_lines_of(s@.skip(j + 1)));
                    assert((seq![line@] + spec_lines_of(s@.skip(j + 1)))[0] == line@);
                    assert((seq![line@] + spec_lines_of(s@.skip(j + 1))).drop_first()
                        =~= spec_lines_of(s@.skip(j + 1)));
                } else {
                    assert(end == j);
                    assert(suffix =~= s@.subrange(start as int, end as int));
                    assert(spec_lines_of(suffix) == seq![line@]);
                    assert(seq![line@].drop_first() =~= Seq::<Seq<char>>::empty());
                    assert(s@.skip(n as int) =~= Seq::<char>::empty());
                }
                // one fold step of the splitter
                let st = parse_step(pre_state.0, pre_state.1, pre_state.2, line@);
                assert((vert@, frag@, section) == st);
            }
            if j < n {
                start = j + 1;
            } else {
                start = n;
            }
        }
        proof {
            assert(s@.skip(n as int) =~= Seq::<char>::empty());
        }
        match self.with_fragment(frag) {
            Ok(b) => b.with_vertex(vert),
            Err(e) => Err(e),
        }
    }

    /// Set the fragment section to the given text.
    pub fn with_fragment(self, src: String) -> (r: Result<ShaderBuilder, ShaderError>)
        ensures
            r is Ok,
            r->Ok_0.spec_fragment_src() == Some(src@),
            r->Ok_0.spec_vertex_src() == self.spec_vertex_src(),
    {
        Ok(ShaderBuilder { fragment_src: Some(src), vertex_src: self.vertex_src })
    }

    /// Set the vertex section to the given text.
    pub fn with_vertex(self, src: String) -> (r: Result<ShaderBuilder, ShaderError>)
        ensures
            r is Ok,
            r->Ok_0.spec_vertex_src() == Some(src@),
            r->Ok_0.spec_fragment_src() == self.spec_fragment_src(),
    {
        Ok(ShaderBuilder { fragment_src: self.fragment_src, vertex_src: Some(src) })
    }

    /// Hand on the two source texts a shader is built from.
    ///
    /// Building fails exactly when a section was never populated: a
    /// shader with a missing stage cannot render anything sensible, so
    /// the miss surfaces here, at the boundary where the precondition
    /// is checked.
    pub fn build(&self) -> (r: Result<ShaderSources, ShaderError>)
        ensures
            self.spec_fragment_src() is None ==> r == Err::<ShaderSources, ShaderError>(
                ShaderError::MissingFragmentSource,
            ),
            self.spec_fragment_src() is Some && self.spec_vertex_src() is None ==> r == Err::<
                ShaderSources,
                ShaderError,
            >(ShaderError::MissingVertexSource),
            self.spec_fragment_src() is Some && self.spec_vertex_src() is Some ==> r is Ok
                && r->Ok_0.fragment@ == self.spec_fragment_src()->0 && r->Ok_0.vertex@
                == self.spec_vertex_src()->0,
    {
        match (&self.fragment_src, &self.vertex_src) {
            (Some(frag), Some(vert)) => Ok(
                ShaderSources { vertex: vert.clone(), fragment: frag.clone() },
            ),
            (None, _) => Err(ShaderError::MissingFragmentSource),
            (Some(_), None) => Err(ShaderError::MissingVertexSource),
        }
    }
}

impl Default for ShaderBuilder {
    /// A builder with neither section populated.
    fn default() -> (r: ShaderBuilder)
        ensures
            r.spec_fragment_src() is None,
            r.spec_vertex_src() is None,
    {
        ShaderBuilder { fragment_src: None, vertex_src: None }
    }
}

/// A stage of the shader build that the driver can report as failed.
#[derive(Clone, Copy, PartialEq, Eq, Structural, Debug)]
pub enum ShaderStage {
    /// Compilation of the fragment shader failed.
    Fragment,
    /// Compilation of the vertex shader failed.
    Vertex,
    /// Linking the program failed.
    Program,
}

/// Which stages must be reported as failed for the given driver
/// statuses.  A failed compile is reported but does not stop the
/// build: linking proceeds regardless, so up to three reports can
/// accumulate, in the order the stages run.
pub fn failed_stages(fragment_ok: bool, vertex_ok: bool, link_ok: bool) -> (r: Vec<ShaderStage>)
    ensures
        r@ == (if !fragment_ok {
            seq![ShaderStage::Fragment]
        } else {
            Seq::<ShaderStage>::empty()
        }) + (if !vertex_ok {
            seq![ShaderStage::Vertex]
        } else {
            Seq::<ShaderStage>::empty()
        }) + (if !link_ok {
            seq![ShaderStage::Program]
        } else {
            Seq::<ShaderStage>::empty()
        }),
{
    let mut r: Vec<ShaderStage> = Vec::new();
    if !fragment_ok {
        r.push(ShaderStage::Fragment);
    }
    if !vertex_ok {
        r.push(ShaderStage::Vertex);
    }
    if !link_ok {
        r.push(ShaderStage::Program);
    }
    proof {
        assert(r@ =~= (if !fragment_ok {
            seq![ShaderStage::Fragment]
        } else {
            Seq::<ShaderStage>::empty()
        }) + (if !vertex_ok {
            seq![ShaderStage::Vertex]
        } else {
            Seq::<ShaderStage>::empty()
        }) + (if !link_ok {
            seq![ShaderStage::Program]
        } else {
            Seq::<ShaderStage>::empty()
        }));
    }
    r
}

/// Owns one linked GPU program handle.
pub struct Shader {
    renderer_id: u32,
}

impl Shader {
    /// A valid wrapper owns a non-zero handle.
    pub open spec fn wf(self) -> bool {
        self.spec_renderer_id() != 0
    }

    /// Wrap the driver-created program handle `id`.
    ///
    /// Construction fails exactly when the handle is the null handle or
    /// already belongs to a live program wrapper; a failed construction
    /// leaves the context untouched.  Nothing is recorded: compiling
    /// and linking already happened on the driver side.
    pub fn new(ctx: &mut GlContext, id: u32) -> (r: Result<Shader, ResourceError>)
        requires
            old(ctx).wf(),
        ensures
            final (ctx).wf(),
            final (ctx).log() == old(ctx).log(),
            id == 0 ==> r == Err::<Shader, ResourceError>(ResourceError::ZeroHandle)
                && *final (ctx) == *old(ctx),
            id != 0 && old(ctx).is_live(HandleKind::Program, id) ==> r == Err::<
                Shader,
                ResourceError,
            >(ResourceError::HandleInUse) && *final (ctx) == *old(ctx),
            id != 0 && !old(ctx).is_live(HandleKind::Program, id) ==> r is Ok
                && r->Ok_0.spec_renderer_id() == id && r->Ok_0.wf() && final (ctx).live_handles()
                == old(ctx).live_handles().push((HandleKind::Program, id)),
    {
        match ctx.acquire(HandleKind::Program, id) {
            Err(e) => Err(e),
            Ok(()) => Ok(Shader { renderer_id: id }),
        }
    }
}

impl GLComponent for Shader {
    closed spec fn spec_renderer_id(&self) -> u32 {
        self.renderer_id
    }

    open spec fn bind_command(&self) -> GlCommand {
        GlCommand::UseProgram { id: self.spec_renderer_id() }
    }

    open spec fn unbind_command(&self) -> GlCommand {
        GlCommand::UseProgram { id: 0 }
    }

    fn renderer_id(&self) -> (r: u32) {
        self.renderer_id
    }

    fn bind(&self, ctx: &mut GlContext) {
        ctx.record(GlCommand::UseProgram { id: self.renderer_id });
    }

    fn unbind(&self, ctx: &mut GlContext) {
        ctx.record(GlCommand::UseProgram { id: 0 });
    }
}

} // verus!
