//! Text handed to other programs when reading or replacing another app's
//! selection and when talking to the satellite panels: escaping for
//! single-quoted JavaScript and AppleScript strings, and which clipboard
//! flavor to write back after the clipboard was borrowed.
use vstd::prelude::*;

use crate::text::chars_of;

verus! {

/// What `c` becomes inside a single-quoted JavaScript string literal:
/// backslash and single quote are escaped, a newline becomes `\n`, a
/// carriage return is dropped.
pub open spec fn js_escaped_char(c: char) -> Seq<char> {
    if c == '\\' {
        seq!['\\', '\\']
    } else if c == '\'' {
        seq!['\\', '\'']
    } else if c == '\n' {
        seq!['\\', 'n']
    } else if c == '\r' {
        Seq::empty()
    } else {
        seq![c]
    }
}

/// `s` escaped for a single-quoted JavaScript string literal, character by
/// character.
pub open spec fn js_escaped(s: Seq<char>) -> Seq<char>
    decreases s.len(),
{
    if s.len() == 0 {
        Seq::empty()
    } else {
        js_escaped(s.drop_last()) + js_escaped_char(s.last())
    }
}

fn push_all(out: &mut String, cs: &[char])
    ensures
        final(out)@ == old(out)@ + cs@,
{
    let mut i: usize = 0;
    while i < cs.len()
        invariant
            i <= cs@.len(),
            out@ == old(out)@ + cs@.subrange(0, i as int),
        decreases cs@.len() - i,
    {
        out.push(cs[i]);
        i = i + 1;
        proof {
            assert(cs@.subrange(0, i as int) =~= cs@.subrange(0, i - 1).push(cs@[i - 1]));
        }
    }
    proof {
        assert(cs@.subrange(0, cs@.len() as int) =~= cs@);
    }
}

/// Escape `s` for interpolation into a single-quoted JavaScript string
/// literal of a panel call (see [`js_escaped`]); a multi-line message stays
/// one valid literal.
pub fn js_escape(s: &str) -> (escaped: String)
    ensures
        escaped@ == js_escaped(s@),
{
    let cs = chars_of(s);
    let mut out = String::new();
    let mut i: usize = 0;
    while i < cs.len()
        invariant
            i <= cs@.len(),
            cs@ == s@,
            out@ == js_escaped(cs@.subrange(0, i as int)),
        decreases cs@.len() - i,
    {
        let c = cs[i];
        if c == '\\' {
            push_all(&mut out, &['\\', '\\']);
        } else if c == '\'' {
            push_all(&mut out, &['\\', '\'']);
        } else if c == '\n' {
            push_all(&mut out, &['\\', 'n']);
        } else if c == '\r' {
        } else {
            out.push(c);
        }
        proof {
            let pre = cs@.subrange(0, i + 1);
            assert(pre.drop_last() =~= cs@.subrange(0, i as int));
            assert(pre.last() == c);
            assert(out@ =~= js_escaped(pre));
        }
        i = i + 1;
    }
    proof {
        assert(cs@.subrange(0, cs@.len() as int) =~= cs@);
    }
    out
}

/// An escaped text stays on one line: it holds no newline and no carriage
/// return, so a multi-line message still makes one valid literal.
pub proof fn lemma_js_escaped_single_line(s: Seq<char>)
    ensures
        forall|i: int| 0 <= i < js_escaped(s).len() ==> #[trigger] js_escaped(s)[i] != '\n' && js_escaped(s)[i] != '\r',
    decreases s.len(),
{
    if s.len() > 0 {
        lemma_js_escaped_single_line(s.drop_last());
        let pre = js_escaped(s.drop_last());
        let tail = js_escaped_char(s.last());
        assert forall|i: int| 0 <= i < js_escaped(s).len() implies #[trigger] js_escaped(s)[i] != '\n'
            && js_escaped(s)[i] != '\r' by {
            if i < pre.len() {
                assert(js_escaped(s)[i] == pre[i]);
            } else {
                assert(js_escaped(s)[i] == tail[i - pre.len()]);
            }
        }
    }
}

/// `s` with every double quote backslash-escaped, for an AppleScript string
/// literal.
pub open spec fn quote_escaped(s: Seq<char>) -> Seq<char>
    decreases s.len(),
{
    if s.len() == 0 {
        Seq::empty()
    } else {
        quote_escaped(s.drop_last()) + (if s.last() == '"' { seq!['\\', '"'] } else { seq![s.last()] })
    }
}

/// The AppleScript that brings application `name` to the front.
pub open spec fn activate_script(name: Seq<char>) -> Seq<char> {
    "tell application \""@ + quote_escaped(name) + "\" to activate"@
}

/// The AppleScript that brings application `name` to the front, with the
/// name quoted safely (see [`activate_script`]).
pub fn activate_app_script(name: &str) -> (script: String)
    ensures
        script@ == activate_script(name@),
{
    let cs = chars_of(name);
    let mut out = String::from_str("tell application \"");
    let ghost prefix = out@;
    let mut i: usize = 0;
    while i < cs.len()
        invariant
            i <= cs@.len(),
            cs@ == name@,
            out@ == prefix + quote_escaped(cs@.subrange(0, i as int)),
        decreases cs@.len() - i,
    {
        let c = cs[i];
        if c == '"' {
            out.push('\\');
            out.push('"');
        } else {
            out.push(c);
        }
        proof {
            let pre = cs@.subrange(0, i + 1);
            assert(pre.drop_last() =~= cs@.subrange(0, i as int));
            assert(pre.last() == c);
            assert(out@ =~= prefix + quote_escaped(pre));
        }
        i = i + 1;
    }
    proof {
        assert(cs@.subrange(0, cs@.len() as int) =~= cs@);
    }
    out.append("\" to activate");
    out
}

/// Every clipboard flavor captured before the clipboard is borrowed: plain
/// text, HTML, an image and a file list, each when present.
pub struct ClipboardSnapshot<I, F> {
    pub text: Option<String>,
    pub html: Option<String>,
    pub image: Option<I>,
    pub files: Option<F>,
}

/// The single clipboard write that restores a snapshot.
pub enum ClipboardRestore<I, F> {
    /// Write the image.
    Image(I),
    /// Write the HTML with its plain-text alternative.
    Html(String, Option<String>),
    /// Write the file list.
    Files(F),
    /// Write the plain text.
    Text(String),
    /// The snapshot held nothing; write nothing.
    Nothing,
}

/// The restoring write for `snap`: every write replaces the whole
/// clipboard, so the richest captured flavor wins — image, then HTML (with
/// the text riding along), then files, then text.
pub open spec fn restore_choice<I, F>(snap: ClipboardSnapshot<I, F>) -> ClipboardRestore<I, F> {
    match snap.image {
        Some(image) => ClipboardRestore::Image(image),
        None => match snap.html {
            Some(html) => ClipboardRestore::Html(html, snap.text),
            None => match snap.files {
                Some(files) => ClipboardRestore::Files(files),
                None => match snap.text {
                    Some(text) => ClipboardRestore::Text(text),
                    None => ClipboardRestore::Nothing,
                },
            },
        },
    }
}

/// Choose the write that restores `snap` (see [`restore_choice`]).
pub fn restore_plan<I, F>(snap: ClipboardSnapshot<I, F>) -> (plan: ClipboardRestore<I, F>)
    ensures
        plan == restore_choice(snap),
{
    let ClipboardSnapshot { text, html, image, files } = snap;
    if let Some(image) = image {
        ClipboardRestore::Image(image)
    } else if let Some(html) = html {
        ClipboardRestore::Html(html, text)
    } else if let Some(files) = files {
        ClipboardRestore::Files(files)
    } else if let Some(text) = text {
        ClipboardRestore::Text(text)
    } else {
        ClipboardRestore::Nothing
    }
}

} // verus!
