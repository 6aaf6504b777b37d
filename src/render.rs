use vstd::prelude::*;
use colored::Colorize;
use crate::model::{Articles, HeadlineView};

verus! {

/// The colour a piece of text is shown in.
pub enum Tone {
    /// Green: the label in front of a publisher.
    Label,
    /// Bold red: the publisher's name.
    Publisher,
    /// Yellow: a title.
    Title,
    /// Blue: a link.
    Link,
    /// Red: the word that opens an error report.
    Alarm,
}

/// The escape code that switches a terminal to a tone.
pub open spec fn tone_code(tone: Tone) -> Seq<char> {
    match tone {
        Tone::Label => "\x1b[32m"@,
        Tone::Publisher => "\x1b[1;31m"@,
        Tone::Title => "\x1b[33m"@,
        Tone::Link => "\x1b[34m"@,
        Tone::Alarm => "\x1b[31m"@,
    }
}

/// The escape code that switches a terminal back to plain text.
pub open spec fn reset_code() -> Seq<char> {
    "\x1b[0m"@
}

/// `s` shown in `tone` where `lit`, as it is otherwise.
pub open spec fn dress(s: Seq<char>, tone: Tone, lit: bool) -> Seq<char> {
    if lit {
        tone_code(tone) + s + reset_code()
    } else {
        s
    }
}

/// `r` is `s` painted in `tone`: text that holds no escape character comes out
/// whole, with or without the codes around it; no text comes out shorter.
pub open spec fn painted(r: Seq<char>, s: Seq<char>, tone: Tone) -> bool {
    &&& s.len() <= r.len()
    &&& !s.contains('\x1b') ==> exists|lit: bool| r == dress(s, tone, lit)
}

/// Relies on colored's `Colorize::green` and the `Display` of `ColoredString`:
/// the text between the codes for green and for reset, or the text alone
/// where colours are switched off.
#[verifier::external_body]
fn green(s: &str) -> (r: String)
    ensures
        painted(r@, s@, Tone::Label),
{
    s.green().to_string()
}

/// Relies on colored's `Colorize::red`, `ColoredString::bold` and the `Display`
/// of `ColoredString`: the text between the codes for bold red and for reset,
/// or the text alone where colours are switched off.
#[verifier::external_body]
fn red_bold(s: &str) -> (r: String)
    ensures
        painted(r@, s@, Tone::Publisher),
{
    s.red().bold().to_string()
}

/// Relies on colored's `Colorize::yellow` and the `Display` of `ColoredString`:
/// the text between the codes for yellow and for reset, or the text alone
/// where colours are switched off.
#[verifier::external_body]
fn yellow(s: &str) -> (r: String)
    ensures
        painted(r@, s@, Tone::Title),
{
    s.yellow().to_string()
}

/// Relies on colored's `Colorize::blue` and the `Display` of `ColoredString`:
/// the text between the codes for blue and for reset, or the text alone
/// where colours are switched off.
#[verifier::external_body]
fn blue(s: &str) -> (r: String)
    ensures
        painted(r@, s@, Tone::Link),
{
    s.blue().to_string()
}

/// Relies on colored's `Colorize::red` and the `Display` of `ColoredString`:
/// the text between the codes for red and for reset, or the text alone where
/// colours are switched off.
#[verifier::external_body]
pub(crate) fn red(s: &str) -> (r: String)
    ensures
        painted(r@, s@, Tone::Alarm),
{
    s.red().to_string()
}

/// The line that names a publisher, with each of its two coloured parts lit or not.
pub open spec fn source_line(name: Seq<char>, lit_label: bool, lit_name: bool) -> Seq<char> {
    dress("> source:"@, Tone::Label, lit_label) + " "@ + dress(name, Tone::Publisher, lit_name)
}

/// The line that shows a title.
pub open spec fn title_line(title: Seq<char>, lit: bool) -> Seq<char> {
    "> "@ + dress(title, Tone::Title, lit)
}

/// The line that shows a link; a space ends it.
pub open spec fn link_line(url: Seq<char>, lit: bool) -> Seq<char> {
    "> "@ + dress(url, Tone::Link, lit) + " "@
}

/// Four lines show headline `h`: its publisher, its title and its link, none
/// of them empty, and an empty line that parts it from the next.
pub open spec fn shows_headline(group: Seq<Seq<char>>, h: HeadlineView) -> bool {
    &&& group.len() == 4
    &&& group[0].len() > 0
    &&& group[1].len() > 0
    &&& group[2].len() > 0
    &&& group[3].len() == 0
    &&& !h.source.contains('\x1b') ==> exists|a: bool, b: bool| group[0] == source_line(h.source, a, b)
    &&& !h.title.contains('\x1b') ==> exists|a: bool| group[1] == title_line(h.title, a)
    &&& !h.url.contains('\x1b') ==> exists|a: bool| group[2] == link_line(h.url, a)
}

/// The text of each line.
pub open spec fn texts(lines: Seq<String>) -> Seq<Seq<char>> {
    lines.map_values(|l: String| l@)
}

/// `lines` show the headlines `hs` in their order, four lines for each, and nothing else.
pub open spec fn renders(lines: Seq<Seq<char>>, hs: Seq<HeadlineView>) -> bool {
    &&& lines.len() == 4 * hs.len()
    &&& forall|i: int| 0 <= i < hs.len() ==> shows_headline(lines.subrange(4 * i, 4 * i + 4), #[trigger] hs[i])
}

/// The line that names the publisher `name`.
pub fn source_text(name: &str) -> (r: String)
    ensures
        r@.len() > 0,
        !name@.contains('\x1b') ==> exists|a: bool, b: bool| r@ == source_line(name@, a, b),
{
    let label = green("> source:");
    let who = red_bold(name);
    let r = label.concat(" ").concat(who.as_str());
    proof {
        reveal_strlit("> source:");
        reveal_strlit(" ");
        assert(!"> source:"@.contains('\x1b')) by {
            assert forall|k: int| 0 <= k < "> source:"@.len() implies "> source:"@[k] != '\x1b' by {}
        }
        let a = choose|a: bool| label@ == dress("> source:"@, Tone::Label, a);
        if !name@.contains('\x1b') {
            let b = choose|b: bool| who@ == dress(name@, Tone::Publisher, b);
            assert(r@ == source_line(name@, a, b));
        }
    }
    r
}

/// The line that shows the title `title`.
pub fn title_text(title: &str) -> (r: String)
    ensures
        r@.len() > 0,
        !title@.contains('\x1b') ==> exists|a: bool| r@ == title_line(title@, a),
{
    let shown = yellow(title);
    let r = String::from_str("> ").concat(shown.as_str());
    proof {
        reveal_strlit("> ");
        if !title@.contains('\x1b') {
            let a = choose|a: bool| shown@ == dress(title@, Tone::Title, a);
            assert(r@ == title_line(title@, a));
        }
    }
    r
}

/// The line that shows the link `url`.
pub fn link_text(url: &str) -> (r: String)
    ensures
        r@.len() > 0,
        !url@.contains('\x1b') ==> exists|a: bool| r@ == link_line(url@, a),
{
    let shown = blue(url);
    let r = String::from_str("> ").concat(shown.as_str()).concat(" ");
    proof {
        reveal_strlit("> ");
        reveal_strlit(" ");
        if !url@.contains('\x1b') {
            let a = choose|a: bool| shown@ == dress(url@, Tone::Link, a);
            assert(r@ == link_line(url@, a));
        }
    }
    r
}

/// The lines that show every headline of `list`, in its order: for each, the
/// publisher, the title, the link and an empty line.
pub fn render_top_headlines(list: &Articles) -> (lines: Vec<String>)
    ensures
        renders(texts(lines@), list@),
{
    let mut lines: Vec<String> = Vec::new();
    let mut i: usize = 0;
    while i < list.articles.len()
        invariant
            i <= list.articles.len(),
            renders(texts(lines@), list@.take(i as int)),
        decreases list.articles.len() - i,
    {
        let article = &list.articles[i];
        let l0 = source_text(article.source.name.as_str());
        let l1 = title_text(article.title.as_str());
        let l2 = link_text(article.url.as_str());
        let l3 = String::new();
        let ghost before = texts(lines@);
        let ghost group = seq![l0@, l1@, l2@, l3@];
        lines.push(l0);
        lines.push(l1);
        lines.push(l2);
        lines.push(l3);
        proof {
            let after = texts(lines@);
            let hs = list@.take(i as int + 1);
            assert(after =~= before + group);
            assert(hs[i as int] == list.articles@[i as int]@);
            assert(shows_headline(after.subrange(4 * i, 4 * i + 4), hs[i as int])) by {
                assert(after.subrange(4 * i, 4 * i + 4) =~= group);
            }
            assert forall|j: int| 0 <= j < hs.len() implies shows_headline(
                after.subrange(4 * j, 4 * j + 4),
                #[trigger] hs[j],
            ) by {
                if j < i {
                    assert(after.subrange(4 * j, 4 * j + 4) =~= before.subrange(4 * j, 4 * j + 4));
                    assert(hs[j] == list@.take(i as int)[j]);
                }
            }
        }
        i += 1;
    }
    assert(list@.take(list@.len() as int) =~= list@);
    lines
}

} // verus!
