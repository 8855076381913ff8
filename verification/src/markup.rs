//! Markup nodes: fragments of HTML that render themselves into a buffer.

use crate::markdown::{markdown_html, Markdown};
use vstd::prelude::*;
use vstd::string::StringExecFns;

verus! {

/// The mathematical content of a [`Markup`] node.
pub enum MarkupView {
    /// Literal text.
    Text(Seq<char>),
    /// Markdown source.
    Markdown(Seq<char>),
    /// Child nodes, in declaration order.
    Fragment(Seq<MarkupView>),
}

impl MarkupView {
    /// The text that the node emits: literal text as it stands, Markdown as
    /// its conversion, a fragment as the texts of its children, first to last.
    pub open spec fn html(self) -> Seq<char>
        decreases self,
    {
        match self {
            MarkupView::Text(text) => text,
            MarkupView::Markdown(source) => markdown_html(source),
            MarkupView::Fragment(children) => concat_html(children),
        }
    }
}

/// The texts of `nodes`, concatenated in order.
pub open spec fn concat_html(nodes: Seq<MarkupView>) -> Seq<char>
    decreases nodes,
{
    if nodes.len() == 0 {
        Seq::empty()
    } else {
        concat_html(nodes.drop_last()) + nodes.last().html()
    }
}

/// A fragment of HTML.
///
/// Text is emitted verbatim. It is never escaped, so it must be trusted,
/// hand-authored content.
#[derive(Debug)]
pub enum Markup {
    /// Literal text, emitted as it stands.
    Text(String),
    /// Markdown source, emitted as its HTML conversion.
    Markdown(Markdown),
    /// Child nodes, emitted in declaration order.
    Fragment(Vec<Markup>),
}

impl View for Markup {
    type V = MarkupView;

    open spec fn view(&self) -> MarkupView
        decreases self,
    {
        match self {
            Markup::Text(text) => MarkupView::Text(text@),
            Markup::Markdown(block) => MarkupView::Markdown(block@),
            Markup::Fragment(children) => MarkupView::Fragment(
                Seq::new(
                    children.len() as nat,
                    |i: int|
                        if 0 <= i < children.len() {
                            children[i]@
                        } else {
                            MarkupView::Fragment(Seq::empty())
                        },
                ),
            ),
        }
    }
}

/// Appends `html` to `output` as it stands: nothing is escaped.
pub fn splice(output: &mut String, html: &str)
    ensures
        final(output)@ == old(output)@ + html@,
{
    output.append(html);
}

impl Markup {
    /// A node of literal text.
    pub fn text(content: &str) -> (node: Markup)
        ensures
            node@ == MarkupView::Text(content@),
            node@.html() == content@,
    {
        Markup::Text(content.to_owned())
    }

    /// A node that embeds the HTML conversion of Markdown source.
    pub fn markdown(source: &str) -> (node: Markup)
        ensures
            node@ == MarkupView::Markdown(source@),
            node@.html() == markdown_html(source@),
    {
        Markup::Markdown(Markdown::new(source))
    }

    /// A node that emits nothing.
    pub fn empty() -> (node: Markup)
        ensures
            node@ == MarkupView::Fragment(Seq::empty()),
            node@.html() == Seq::<char>::empty(),
    {
        let node = Markup::Fragment(Vec::new());
        assert(node@->Fragment_0 =~= Seq::empty());
        node
    }

    /// A node made of `children`, in their order.
    pub fn fragment(children: Vec<Markup>) -> (node: Markup)
        ensures
            node@ is Fragment,
            node@->Fragment_0.len() == children.len(),
            forall|i: int| 0 <= i < children.len() ==> node@->Fragment_0[i] == children[i]@,
            node@.html() == concat_html(node@->Fragment_0),
    {
        Markup::Fragment(children)
    }

    /// The node that emits the text of `self` followed by the text of `next`.
    pub fn followed_by(self, next: Markup) -> (joined: Markup)
        ensures
            joined@.html() == self@.html() + next@.html(),
    {
        match self {
            Markup::Fragment(children) => {
                let ghost before = Markup::Fragment(children)@->Fragment_0;
                let mut children = children;
                children.push(next);
                let joined = Markup::Fragment(children);
                proof {
                    let after = joined@->Fragment_0;
                    assert(after.drop_last() =~= before);
                    assert(after.last() == next@);
                }
                joined
            },
            first => {
                let ghost first_view = first@;
                let mut children: Vec<Markup> = Vec::new();
                children.push(first);
                children.push(next);
                let joined = Markup::Fragment(children);
                proof {
                    let pair = joined@->Fragment_0;
                    assert(pair.last() == next@);
                    assert(pair.drop_last().last() == first_view);
                    assert(pair.drop_last().drop_last() =~= Seq::empty());
                    assert(concat_html(pair.drop_last().drop_last()) =~= Seq::empty());
                    assert(concat_html(pair.drop_last()) =~= first_view.html());
                }
                joined
            },
        }
    }

    /// Appends the text of this node to `output`: children are rendered
    /// depth-first, in declaration order, and nothing is escaped.
    pub fn render_to(&self, output: &mut String)
        ensures
            final(output)@ == old(output)@ + self@.html(),
        decreases self,
    {
        match self {
            Markup::Text(text) => splice(output, text.as_str()),
            Markup::Markdown(block) => block.render_to(output),
            Markup::Fragment(children) => {
                let ghost views = self@->Fragment_0;
                let mut i: usize = 0;
                while i < children.len()
                    invariant
                        i <= children.len(),
                        self is Fragment,
                        self->Fragment_0 == children,
                        views.len() == children.len(),
                        forall|k: int| 0 <= k < children.len() ==> views[k] == children[k]@,
                        output@ == old(output)@ + concat_html(views.take(i as int)),
                    decreases children.len() - i,
                {
                    children[i].render_to(output);
                    proof {
                        let rendered = views.take(i + 1);
                        assert(rendered.drop_last() =~= views.take(i as int));
                        assert(rendered.last() == views[i as int]);
                    }
                    i += 1;
                }
                assert(views.take(i as int) =~= views);
            },
        }
    }

    /// Renders this node into a fresh string.
    pub fn render(&self) -> (html: String)
        ensures
            html@ == self@.html(),
    {
        let mut html = String::new();
        self.render_to(&mut html);
        html
    }
}

/// What was declared is what is emitted, in order: the text of one list of
/// nodes followed by another is the text of the first list followed by the
/// text of the second.
pub proof fn lemma_concat_html_append(first: Seq<MarkupView>, second: Seq<MarkupView>)
    ensures
        concat_html(first + second) == concat_html(first) + concat_html(second),
    decreases second.len(),
{
    if second.len() == 0 {
        assert(first + second =~= first);
        assert(concat_html(first) + concat_html(second) =~= concat_html(first));
    } else {
        lemma_concat_html_append(first, second.drop_last());
        assert((first + second).drop_last() =~= first + second.drop_last());
        assert((first + second).last() == second.last());
        assert(concat_html(first + second) =~= concat_html(first) + concat_html(second));
    }
}

/// Rendering is determined by what was declared: nodes with the same content
/// emit the same text, whenever and however often they are rendered.
pub proof fn lemma_render_deterministic(
    first: Markup,
    first_text: Seq<char>,
    second: Markup,
    second_text: Seq<char>,
)
    requires
        first@ == second@,
        first_text == first@.html(),
        second_text == second@.html(),
    ensures
        first_text == second_text,
{
}

/// Literal text crosses the node unescaped, whatever it holds.
pub proof fn lemma_text_is_verbatim(text: Seq<char>, before: Seq<MarkupView>, after: Seq<MarkupView>)
    ensures
        MarkupView::Text(text).html() == text,
        concat_html(before.push(MarkupView::Text(text)) + after) == concat_html(before) + text
            + concat_html(after),
{
    let node = MarkupView::Text(text);
    lemma_concat_html_append(before.push(node), after);
    assert(before.push(node).drop_last() =~= before);
    assert(before.push(node).last() == node);
}

} // verus!
