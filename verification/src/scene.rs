//! Content scenes and how the viewer lays them out.
//!
//! A [`Scene`] is a verified content document lowered to blocks. [`lay_out`]
//! turns it into a flat list of [`Element`]s: what to draw, at which size and
//! in which tone, in order. No toolkit is involved; the shell maps each element
//! to widgets. Every text that the publisher controls is shown isolated (see
//! [`crate::text::isolate`]).
use crate::protocol::ImageRef;
use crate::text;
use crate::text::{decimal_text, isolate, joined};
use vstd::prelude::*;
use vstd::string::*;

verus! {

/// The marks of an inline run.
#[derive(Clone, Copy, Debug, PartialEq, Eq, Structural)]
pub struct RunStyle {
    /// Bold.
    pub bold: bool,
    /// Italic.
    pub italic: bool,
    /// Inline code.
    pub code: bool,
    /// Struck through.
    pub strikethrough: bool,
}

/// A piece of inline text.
#[derive(Clone, Debug, PartialEq, Eq)]
pub enum InlineRun {
    /// Text.
    Text {
        /// The text.
        text: String,
        /// Its marks.
        style: RunStyle,
    },
    /// The text of an inline link.
    Link {
        /// The text.
        text: String,
        /// Its marks.
        style: RunStyle,
    },
}

impl InlineRun {
    /// The text of a run.
    pub open spec fn spec_text(self) -> Seq<char> {
        match self {
            InlineRun::Text { text, .. } => text@,
            InlineRun::Link { text, .. } => text@,
        }
    }

    /// The marks of a run.
    pub open spec fn spec_style(self) -> RunStyle {
        match self {
            InlineRun::Text { style, .. } => style,
            InlineRun::Link { style, .. } => style,
        }
    }
}

/// The target of a link block.
#[derive(Clone, Debug, PartialEq, Eq)]
pub enum LinkRef {
    /// A service reached over the carrier.
    Carrier {
        /// Its URL.
        url: String,
    },
    /// A reference on the open network.
    Citation {
        /// Its URL.
        url: String,
    },
    /// A page of the same site.
    SameSite {
        /// Its path.
        path: String,
    },
    /// A page of another site of this protocol.
    Entangled,
}

/// A field of a form.
#[derive(Clone, Debug, PartialEq, Eq)]
pub enum FormFieldView {
    /// A line of text.
    Text {
        /// The label.
        label: String,
    },
    /// Several lines of text.
    Textarea {
        /// The label.
        label: String,
    },
    /// A choice.
    Select {
        /// The label.
        label: String,
    },
    /// A check box.
    Checkbox {
        /// The label.
        label: String,
    },
}

impl FormFieldView {
    /// The label of a field.
    pub open spec fn spec_label(self) -> Seq<char> {
        match self {
            FormFieldView::Text { label } => label@,
            FormFieldView::Textarea { label } => label@,
            FormFieldView::Select { label } => label@,
            FormFieldView::Checkbox { label } => label@,
        }
    }

    /// The name of a field's kind.
    pub open spec fn spec_kind(self) -> Seq<char> {
        match self {
            FormFieldView::Text { .. } => "text"@,
            FormFieldView::Textarea { .. } => "textarea"@,
            FormFieldView::Select { .. } => "select"@,
            FormFieldView::Checkbox { .. } => "checkbox"@,
        }
    }
}

/// A block of content.
#[derive(Clone, Debug, PartialEq, Eq)]
pub enum SceneNode {
    /// A paragraph.
    Paragraph {
        /// Its text.
        runs: Vec<InlineRun>,
    },
    /// A heading.
    Heading {
        /// Its level, from one.
        level: u8,
        /// Its text.
        runs: Vec<InlineRun>,
    },
    /// A block of code.
    CodeBlock {
        /// The code.
        text: String,
    },
    /// A quotation.
    Quote {
        /// What is quoted.
        runs: Vec<InlineRun>,
        /// Who is quoted.
        attribution: Option<Vec<InlineRun>>,
    },
    /// A list.
    List {
        /// Whether its items are numbered.
        ordered: bool,
        /// The text of each item.
        items: Vec<Vec<InlineRun>>,
    },
    /// A divider.
    Divider,
    /// An image.
    Image {
        /// The declared image.
        image: ImageRef,
    },
    /// A link.
    Link {
        /// Its text.
        label: Vec<InlineRun>,
        /// Where it leads.
        link: LinkRef,
    },
    /// A form.
    SubmitForm {
        /// Its title.
        label: Vec<InlineRun>,
        /// Its fields.
        fields: Vec<FormFieldView>,
        /// The text of its button.
        submit_label: String,
    },
    /// Feedback on a submit.
    Feedback {
        /// Its text.
        runs: Vec<InlineRun>,
    },
    /// A note.
    Note {
        /// Its title.
        title: Option<String>,
        /// Its text.
        runs: Vec<InlineRun>,
    },
}

/// A content document, lowered to blocks.
#[derive(Clone, Debug, PartialEq, Eq)]
pub struct Scene {
    /// The blocks, in order.
    pub nodes: Vec<SceneNode>,
}

/// The kind of an external link. The two cross different boundaries: a carrier
/// destination is outside this protocol but reached over the carrier, a citation
/// is on the open network.
#[derive(Clone, Copy, Debug, PartialEq, Eq, Structural)]
pub enum HandoffKind {
    /// Reached over the carrier.
    Carrier,
    /// On the open network.
    Citation,
}

/// A pending handoff of an external link.
#[derive(Clone, Debug, PartialEq, Eq)]
pub struct Handoff {
    /// The destination.
    pub url: String,
    /// Which boundary it crosses.
    pub kind: HandoffKind,
}

/// The destination of an external link; `None` for an internal one.
pub open spec fn handoff_of(link: LinkRef) -> Option<(HandoffKind, Seq<char>)> {
    match link {
        LinkRef::Carrier { url } => Some((HandoffKind::Carrier, url@)),
        LinkRef::Citation { url } => Some((HandoffKind::Citation, url@)),
        LinkRef::SameSite { .. } | LinkRef::Entangled => None,
    }
}

/// A handoff's kind and destination.
pub open spec fn handoff_view(handoff: Option<Handoff>) -> Option<(HandoffKind, Seq<char>)> {
    match handoff {
        Some(h) => Some((h.kind, h.url@)),
        None => None,
    }
}

/// The handoff that an external link asks for. A link within the protocol asks
/// for none.
pub fn external_handoff(link: &LinkRef) -> (handoff: Option<Handoff>)
    ensures
        handoff_view(handoff) == handoff_of(*link),
{
    match link {
        LinkRef::Carrier { url } => Some(
            Handoff { url: url.clone(), kind: HandoffKind::Carrier },
        ),
        LinkRef::Citation { url } => Some(
            Handoff { url: url.clone(), kind: HandoffKind::Citation },
        ),
        LinkRef::SameSite { .. } | LinkRef::Entangled => None,
    }
}

/// The texts of `runs`, one after the other.
pub open spec fn text_of(runs: Seq<InlineRun>) -> Seq<char>
    decreases runs.len(),
{
    if runs.len() == 0 {
        seq![]
    } else {
        text_of(runs.drop_last()) + runs.last().spec_text()
    }
}

/// The plain text of `runs`.
pub fn runs_text(runs: &Vec<InlineRun>) -> (text: String)
    ensures
        text@ == text_of(runs@),
{
    let mut text = String::new();
    let mut i: usize = 0;
    assert(runs@.take(0) =~= seq![]);
    while i < runs.len()
        invariant
            i <= runs@.len(),
            text@ == text_of(runs@.take(i as int)),
        decreases runs@.len() - i,
    {
        proof {
            let next = runs@.take(i + 1);
            assert(next.drop_last() =~= runs@.take(i as int));
            assert(next.last() == runs@[i as int]);
        }
        match &runs[i] {
            InlineRun::Text { text: t, .. } => text.append(t.as_str()),
            InlineRun::Link { text: t, .. } => text.append(t.as_str()),
        }
        i += 1;
    }
    assert(runs@.take(runs@.len() as int) =~= runs@);
    text
}

/// How a field is labelled: its kind in brackets, then its label.
pub open spec fn field_text(kind: Seq<char>, label: Seq<char>) -> Seq<char> {
    "["@ + kind + "] "@ + label
}

/// The label of a form field: `[kind] label`.
pub fn field_label(field: &FormFieldView) -> (text: String)
    ensures
        text@ == field_text(field.spec_kind(), field.spec_label()),
{
    let (kind, label): (&str, &String) = match field {
        FormFieldView::Text { label } => ("text", label),
        FormFieldView::Textarea { label } => ("textarea", label),
        FormFieldView::Select { label } => ("select", label),
        FormFieldView::Checkbox { label } => ("checkbox", label),
    };
    let mut text = joined("[", kind);
    text.append("] ");
    text.append(label.as_str());
    text
}

/// A field with its label as it is shown.
fn shown_field(field: &FormFieldView) -> (shown: FormFieldView)
    ensures
        shown.spec_kind() == field.spec_kind(),
        shown.spec_label() == text::isolated(field.spec_label()),
{
    match field {
        FormFieldView::Text { label } => FormFieldView::Text { label: isolate(label.as_str()) },
        FormFieldView::Textarea { label } => FormFieldView::Textarea {
            label: isolate(label.as_str()),
        },
        FormFieldView::Select { label } => FormFieldView::Select { label: isolate(label.as_str()) },
        FormFieldView::Checkbox { label } => FormFieldView::Checkbox {
            label: isolate(label.as_str()),
        },
    }
}

/// The font family of a run.
#[derive(Clone, Copy, Debug, PartialEq, Eq, Structural)]
pub enum Family {
    /// The proportional family.
    Proportional,
    /// The bold family.
    Bold,
    /// The monospace family.
    Monospace,
}

/// The tone of a text.
#[derive(Clone, Copy, Debug, PartialEq, Eq, Structural)]
pub enum Tone {
    /// Body text.
    Body,
    /// Text of less weight.
    Muted,
    /// Headings.
    Heading,
    /// Links.
    Link,
}

/// A run as it is drawn.
#[derive(Clone, Copy, Debug, PartialEq, Eq)]
pub struct StyledRun<T> {
    /// The text.
    pub text: T,
    /// Its family.
    pub family: Family,
    /// Whether it is italic.
    pub italic: bool,
    /// Whether it is struck through.
    pub strikethrough: bool,
    /// Whether it is underlined.
    pub underline: bool,
    /// Its tone.
    pub tone: Tone,
}

impl View for StyledRun<String> {
    type V = StyledRun<Seq<char>>;

    open spec fn view(&self) -> StyledRun<Seq<char>> {
        StyledRun {
            text: self.text@,
            family: self.family,
            italic: self.italic,
            strikethrough: self.strikethrough,
            underline: self.underline,
            tone: self.tone,
        }
    }
}

/// What a block asks of all its runs.
#[derive(Clone, Copy, Debug, PartialEq, Eq, Structural)]
pub struct BlockLook {
    /// The tone of text that is no link.
    pub tone: Tone,
    /// Whether everything is italic.
    pub italic: bool,
    /// Whether everything is underlined.
    pub underline: bool,
}

/// How a run is drawn in a block: code in monospace, else bold in the bold
/// family; links in their own tone and underlined; the text isolated.
pub open spec fn drawn_run(run: InlineRun, look: BlockLook) -> StyledRun<Seq<char>> {
    let style = run.spec_style();
    let is_link = run is Link;
    StyledRun {
        text: text::isolated(run.spec_text()),
        family: if style.code {
            Family::Monospace
        } else if style.bold {
            Family::Bold
        } else {
            Family::Proportional
        },
        italic: style.italic || look.italic,
        strikethrough: style.strikethrough,
        underline: is_link || look.underline,
        tone: if is_link {
            Tone::Link
        } else {
            look.tone
        },
    }
}

/// How the runs of a block are drawn.
pub open spec fn drawn_runs(runs: Seq<InlineRun>, look: BlockLook) -> Seq<StyledRun<Seq<char>>> {
    Seq::new(runs.len(), |i: int| drawn_run(runs[i], look))
}

/// The views of a list of runs.
pub open spec fn run_views(runs: Seq<StyledRun<String>>) -> Seq<StyledRun<Seq<char>>> {
    Seq::new(runs.len(), |i: int| runs[i]@)
}

/// Style the runs of a block.
pub fn runs_job(runs: &Vec<InlineRun>, look: BlockLook) -> (job: Vec<StyledRun<String>>)
    ensures
        run_views(job@) == drawn_runs(runs@, look),
{
    let mut job: Vec<StyledRun<String>> = Vec::new();
    let mut i: usize = 0;
    while i < runs.len()
        invariant
            i <= runs@.len(),
            job@.len() == i,
            forall|j: int| 0 <= j < i ==> (#[trigger] job@[j])@ == drawn_run(runs@[j], look),
        decreases runs@.len() - i,
    {
        let (text, style, is_link): (&String, &RunStyle, bool) = match &runs[i] {
            InlineRun::Text { text, style } => (text, style, false),
            InlineRun::Link { text, style } => (text, style, true),
        };
        let family = if style.code {
            Family::Monospace
        } else if style.bold {
            Family::Bold
        } else {
            Family::Proportional
        };
        let tone = if is_link {
            Tone::Link
        } else {
            look.tone
        };
        job.push(
            StyledRun {
                text: isolate(text.as_str()),
                family,
                italic: style.italic || look.italic,
                strikethrough: style.strikethrough,
                underline: is_link || look.underline,
                tone,
            },
        );
        i += 1;
    }
    assert(run_views(job@) =~= drawn_runs(runs@, look));
    job
}

/// One thing to draw. `T` is a text and `L` a list of runs.
#[derive(Clone, Debug, PartialEq, Eq)]
pub enum Element<T, L> {
    /// Vertical space, in points.
    Gap(u32),
    /// A horizontal rule.
    Rule,
    /// A block of runs.
    Block {
        /// The runs.
        runs: L,
        /// Their size, in points.
        points: u32,
        /// Whether the block is indented.
        indented: bool,
    },
    /// An item of a list.
    Item {
        /// Its bullet or number.
        bullet: T,
        /// Its text.
        runs: L,
    },
    /// A line of plain text.
    Line {
        /// The text.
        text: T,
        /// Its size, in points.
        points: u32,
        /// Its tone.
        tone: Tone,
        /// Whether the line is indented.
        indented: bool,
    },
    /// A box of code.
    CodeBox {
        /// The code.
        text: T,
    },
    /// A placeholder box for an image.
    ImageBox {
        /// What stands for the image.
        text: T,
        /// Its caption.
        caption: Option<T>,
    },
    /// A box for a note.
    NoteBox {
        /// Its title.
        title: Option<T>,
        /// Its text.
        runs: L,
    },
    /// A link. An external one has a tag that tells its kind, and is clickable.
    Link {
        /// Its text.
        runs: L,
        /// Where a click leads, unless the link is inert.
        handoff: Option<(HandoffKind, T)>,
    },
}

/// An element with its texts.
pub type ShownElement = Element<String, Vec<StyledRun<String>>>;

/// What an element shows.
pub type ElementModel = Element<Seq<char>, Seq<StyledRun<Seq<char>>>>;

impl View for Element<String, Vec<StyledRun<String>>> {
    type V = Element<Seq<char>, Seq<StyledRun<Seq<char>>>>;

    open spec fn view(&self) -> Element<Seq<char>, Seq<StyledRun<Seq<char>>>> {
        match self {
            Element::Gap(points) => Element::Gap(*points),
            Element::Rule => Element::Rule,
            Element::Block { runs, points, indented } => Element::Block {
                runs: run_views(runs@),
                points: *points,
                indented: *indented,
            },
            Element::Item { bullet, runs } => Element::Item {
                bullet: bullet@,
                runs: run_views(runs@),
            },
            Element::Line { text, points, tone, indented } => Element::Line {
                text: text@,
                points: *points,
                tone: *tone,
                indented: *indented,
            },
            Element::CodeBox { text } => Element::CodeBox { text: text@ },
            Element::ImageBox { text, caption } => Element::ImageBox {
                text: text@,
                caption: text_view(*caption),
            },
            Element::NoteBox { title, runs } => Element::NoteBox {
                title: text_view(*title),
                runs: run_views(runs@),
            },
            Element::Link { runs, handoff } => Element::Link {
                runs: run_views(runs@),
                handoff: match handoff {
                    Some((kind, url)) => Some((*kind, url@)),
                    None => None,
                },
            },
        }
    }
}

/// The characters of an optional text.
pub open spec fn text_view(text: Option<String>) -> Option<Seq<char>> {
    match text {
        Some(t) => Some(t@),
        None => None,
    }
}

/// What a list of elements shows.
pub open spec fn shown(elements: Seq<ShownElement>) -> Seq<ElementModel> {
    Seq::new(elements.len(), |i: int| elements[i]@)
}

/// The look of an ordinary block.
pub open spec fn plain_look(tone: Tone) -> BlockLook {
    BlockLook { tone, italic: false, underline: false }
}

/// The size of a heading.
pub open spec fn heading_size(level: u8) -> u32 {
    match level {
        1 => 26,
        2 => 21,
        3 => 18,
        _ => 16,
    }
}

/// A block of runs in an ordinary look.
pub open spec fn plain_block(runs: Seq<InlineRun>, points: u32, tone: Tone) -> ElementModel {
    Element::Block { runs: drawn_runs(runs, plain_look(tone)), points, indented: false }
}

/// The bullet of item `i` of a list, counted from zero.
pub open spec fn bullet_of(ordered: bool, i: nat) -> Seq<char> {
    if ordered {
        text::decimal(i + 1) + "."@
    } else {
        "\u{2022}"@
    }
}

/// The elements of the first `n` items of a list.
pub open spec fn item_elements(ordered: bool, items: Seq<Vec<InlineRun>>, n: nat) -> Seq<
    ElementModel,
>
    decreases n,
{
    if n == 0 {
        seq![]
    } else {
        item_elements(ordered, items, (n - 1) as nat) + seq![
            Element::Item {
                bullet: bullet_of(ordered, (n - 1) as nat),
                runs: drawn_runs(items[n - 1]@, plain_look(Tone::Body)),
            },
            Element::Gap(4),
        ]
    }
}

/// The elements of the first `n` fields of a form.
pub open spec fn field_elements(fields: Seq<FormFieldView>, n: nat) -> Seq<ElementModel>
    decreases n,
{
    if n == 0 {
        seq![]
    } else {
        field_elements(fields, (n - 1) as nat).push(
            Element::Line {
                text: field_text(
                    fields[n - 1].spec_kind(),
                    text::isolated(fields[n - 1].spec_label()),
                ),
                points: 15,
                tone: Tone::Muted,
                indented: true,
            },
        )
    }
}

/// What stands for an image: its alternative text, or the word for it.
pub open spec fn image_text(alt: Seq<char>) -> Seq<char> {
    "[image: "@ + (if alt.len() == 0 {
        "image"@
    } else {
        text::isolated(alt)
    }) + "]"@
}

/// An optional text as it is shown.
pub open spec fn isolated_option(text: Option<String>) -> Option<Seq<char>> {
    match text {
        Some(t) => Some(text::isolated(t@)),
        None => None,
    }
}

/// The elements of a block.
pub open spec fn node_elements(node: SceneNode) -> Seq<ElementModel> {
    match node {
        SceneNode::Paragraph { runs } => seq![
            plain_block(runs@, 15, Tone::Body),
            Element::Gap(12),
        ],
        SceneNode::Heading { level, runs } => seq![
            Element::Gap(10),
            plain_block(runs@, heading_size(level), Tone::Heading),
            Element::Gap(8),
        ],
        SceneNode::CodeBlock { text } => seq![
            Element::CodeBox { text: text::isolated(text@) },
            Element::Gap(12),
        ],
        SceneNode::Quote { runs, attribution } => seq![
            Element::Block {
                runs: drawn_runs(
                    runs@,
                    BlockLook { tone: Tone::Muted, italic: true, underline: false },
                ),
                points: 15,
                indented: true,
            },
        ] + (match attribution {
            Some(source) => seq![
                Element::Line {
                    text: "-- "@ + text::isolated(text_of(source@)),
                    points: 13,
                    tone: Tone::Muted,
                    indented: true,
                },
            ],
            None => seq![],
        }) + seq![Element::Gap(12)],
        SceneNode::List { ordered, items } => item_elements(
            ordered,
            items@,
            items@.len(),
        ) + seq![Element::Gap(10)],
        SceneNode::Divider => seq![Element::Gap(4), Element::Rule, Element::Gap(8)],
        SceneNode::Image { image } => seq![
            Element::ImageBox {
                text: image_text(image.alt@),
                caption: isolated_option(image.caption),
            },
            Element::Gap(12),
        ],
        SceneNode::Link { label, link } => seq![
            Element::Link {
                runs: drawn_runs(
                    label@,
                    BlockLook { tone: Tone::Link, italic: false, underline: true },
                ),
                handoff: handoff_of(link),
            },
            Element::Gap(12),
        ],
        SceneNode::SubmitForm { label, fields, submit_label } => seq![
            plain_block(label@, 16, Tone::Heading),
            Element::Gap(4),
        ] + field_elements(fields@, fields@.len()) + seq![
            Element::Gap(4),
            Element::Line {
                text: "[ "@ + text::isolated(submit_label@) + " ]"@,
                points: 15,
                tone: Tone::Body,
                indented: false,
            },
            Element::Gap(12),
        ],
        SceneNode::Feedback { runs } => seq![
            plain_block(runs@, 15, Tone::Body),
            Element::Gap(12),
        ],
        SceneNode::Note { title, runs } => seq![
            Element::NoteBox {
                title: isolated_option(title),
                runs: drawn_runs(runs@, plain_look(Tone::Body)),
            },
            Element::Gap(12),
        ],
    }
}

/// The elements of the first `n` blocks of a scene.
pub open spec fn scene_elements(nodes: Seq<SceneNode>, n: nat) -> Seq<ElementModel>
    decreases n,
{
    if n == 0 {
        seq![]
    } else {
        scene_elements(nodes, (n - 1) as nat) + node_elements(nodes[n - 1])
    }
}

/// The size of a heading, in points.
pub fn heading_points(level: u8) -> (points: u32)
    ensures
        points == heading_size(level),
{
    match level {
        1 => 26,
        2 => 21,
        3 => 18,
        _ => 16,
    }
}

/// Add an element to the end.
fn put(elements: &mut Vec<ShownElement>, element: ShownElement)
    ensures
        shown(final(elements)@) == shown(old(elements)@).push(element@),
{
    elements.push(element);
    assert(shown(elements@) =~= shown(old(elements)@).push(element@));
}

/// Add a block of runs in an ordinary look.
fn put_block(elements: &mut Vec<ShownElement>, runs: &Vec<InlineRun>, points: u32, tone: Tone)
    ensures
        shown(final(elements)@) == shown(old(elements)@).push(plain_block(runs@, points, tone)),
{
    let job = runs_job(runs, BlockLook { tone, italic: false, underline: false });
    put(elements, Element::Block { runs: job, points, indented: false });
}

/// An optional text as it is shown.
fn isolate_option(text: &Option<String>) -> (shown: Option<String>)
    ensures
        text_view(shown) == isolated_option(*text),
{
    match text {
        Some(t) => Some(isolate(t.as_str())),
        None => None,
    }
}

/// Add the items of a list.
fn put_items(elements: &mut Vec<ShownElement>, ordered: bool, items: &Vec<Vec<InlineRun>>)
    ensures
        shown(final(elements)@) == shown(old(elements)@) + item_elements(
            ordered,
            items@,
            items@.len(),
        ),
{
    let ghost before = shown(elements@);
    assert(before =~= before + item_elements(ordered, items@, 0));
    let mut i: usize = 0;
    while i < items.len()
        invariant
            i <= items@.len(),
            shown(elements@) == before + item_elements(ordered, items@, i as nat),
        decreases items@.len() - i,
    {
        let ghost so_far = shown(elements@);
        let bullet = if ordered {
            joined(decimal_text(i as u64 + 1).as_str(), ".")
        } else {
            "\u{2022}".to_owned()
        };
        let look = BlockLook { tone: Tone::Body, italic: false, underline: false };
        put(elements, Element::Item { bullet, runs: runs_job(&items[i], look) });
        put(elements, Element::Gap(4));
        i += 1;
        assert(shown(elements@) =~= before + item_elements(ordered, items@, i as nat));
    }
}

/// Add the fields of a form.
fn put_fields(elements: &mut Vec<ShownElement>, fields: &Vec<FormFieldView>)
    ensures
        shown(final(elements)@) == shown(old(elements)@) + field_elements(
            fields@,
            fields@.len(),
        ),
{
    let ghost before = shown(elements@);
    assert(before =~= before + field_elements(fields@, 0));
    let mut i: usize = 0;
    while i < fields.len()
        invariant
            i <= fields@.len(),
            shown(elements@) == before + field_elements(fields@, i as nat),
        decreases fields@.len() - i,
    {
        let text = field_label(&shown_field(&fields[i]));
        put(elements, Element::Line { text, points: 15, tone: Tone::Muted, indented: true });
        i += 1;
        assert(shown(elements@) =~= before + field_elements(fields@, i as nat));
    }
}

/// Add the elements of a block.
pub fn lay_out_node(elements: &mut Vec<ShownElement>, node: &SceneNode)
    ensures
        shown(final(elements)@) == shown(old(elements)@) + node_elements(*node),
{
    let ghost before = shown(elements@);
    match node {
        SceneNode::Paragraph { runs } => {
            put_block(elements, runs, 15, Tone::Body);
            put(elements, Element::Gap(12));
        },
        SceneNode::Heading { level, runs } => {
            put(elements, Element::Gap(10));
            put_block(elements, runs, heading_points(*level), Tone::Heading);
            put(elements, Element::Gap(8));
        },
        SceneNode::CodeBlock { text } => {
            put(elements, Element::CodeBox { text: isolate(text.as_str()) });
            put(elements, Element::Gap(12));
        },
        SceneNode::Quote { runs, attribution } => {
            let look = BlockLook { tone: Tone::Muted, italic: true, underline: false };
            put(
                elements,
                Element::Block { runs: runs_job(runs, look), points: 15, indented: true },
            );
            if let Some(source) = attribution {
                let text = joined("-- ", isolate(runs_text(source).as_str()).as_str());
                put(
                    elements,
                    Element::Line { text, points: 13, tone: Tone::Muted, indented: true },
                );
            }
            put(elements, Element::Gap(12));
        },
        SceneNode::List { ordered, items } => {
            put_items(elements, *ordered, items);
            put(elements, Element::Gap(10));
        },
        SceneNode::Divider => {
            put(elements, Element::Gap(4));
            put(elements, Element::Rule);
            put(elements, Element::Gap(8));
        },
        SceneNode::Image { image } => {
            let mut text = "[image: ".to_owned();
            if image.alt.as_str().unicode_len() == 0 {
                text.append("image");
            } else {
                text.append(isolate(image.alt.as_str()).as_str());
            }
            text.append("]");
            put(elements, Element::ImageBox { text, caption: isolate_option(&image.caption) });
            put(elements, Element::Gap(12));
        },
        SceneNode::Link { label, link } => {
            let look = BlockLook { tone: Tone::Link, italic: false, underline: true };
            let handoff = match external_handoff(link) {
                Some(target) => Some((target.kind, target.url)),
                None => None,
            };
            put(elements, Element::Link { runs: runs_job(label, look), handoff });
            put(elements, Element::Gap(12));
        },
        SceneNode::SubmitForm { label, fields, submit_label } => {
            put_block(elements, label, 16, Tone::Heading);
            put(elements, Element::Gap(4));
            put_fields(elements, fields);
            put(elements, Element::Gap(4));
            let mut text = joined("[ ", isolate(submit_label.as_str()).as_str());
            text.append(" ]");
            put(elements, Element::Line { text, points: 15, tone: Tone::Body, indented: false });
            put(elements, Element::Gap(12));
        },
        SceneNode::Feedback { runs } => {
            put_block(elements, runs, 15, Tone::Body);
            put(elements, Element::Gap(12));
        },
        SceneNode::Note { title, runs } => {
            let look = BlockLook { tone: Tone::Body, italic: false, underline: false };
            put(
                elements,
                Element::NoteBox { title: isolate_option(title), runs: runs_job(runs, look) },
            );
            put(elements, Element::Gap(12));
        },
    }
    assert(shown(elements@) =~= before + node_elements(*node));
}

/// Lay out a scene: the elements of its blocks, in order.
pub fn lay_out(scene: &Scene) -> (elements: Vec<ShownElement>)
    ensures
        shown(elements@) == scene_elements(scene.nodes@, scene.nodes@.len()),
{
    let mut elements: Vec<ShownElement> = Vec::new();
    assert(shown(elements@) =~= scene_elements(scene.nodes@, 0));
    let mut i: usize = 0;
    while i < scene.nodes.len()
        invariant
            i <= scene.nodes@.len(),
            shown(elements@) == scene_elements(scene.nodes@, i as nat),
        decreases scene.nodes@.len() - i,
    {
        lay_out_node(&mut elements, &scene.nodes[i]);
        i += 1;
    }
    elements
}

/// Only a link out of the protocol is ever handed off; one within it is inert.
pub proof fn law_only_external_links_hand_off(link: LinkRef)
    ensures
        handoff_of(link) is Some <==> link is Carrier || link is Citation,
        handoff_of(link) matches Some((kind, _)) ==> (kind == HandoffKind::Carrier <==> link
            is Carrier),
{
}

/// `drawn` shows `run`: its own text isolated, monospace if it is code and else
/// bold if it is bold, struck through as it is marked, italic if it or its block
/// is, underlined if it is a link or its block is, in the tone of links if it is
/// one and else in the tone of its block.
pub open spec fn shows_run(drawn: StyledRun<String>, run: InlineRun, look: BlockLook) -> bool {
    let (text, style) = match run {
        InlineRun::Text { text, style } => (text@, style),
        InlineRun::Link { text, style } => (text@, style),
    };
    &&& drawn.text@ == text::isolated(text)
    &&& drawn.family == Family::Monospace <==> style.code
    &&& drawn.family == Family::Bold <==> style.bold && !style.code
    &&& drawn.strikethrough <==> style.strikethrough
    &&& drawn.italic <==> style.italic || look.italic
    &&& drawn.underline <==> run is Link || look.underline
    &&& run is Link ==> drawn.tone == Tone::Link
    &&& run is Text ==> drawn.tone == look.tone
}

/// `drawn` shows `runs`: each in its place, none left out and none added.
pub open spec fn shows_runs(
    drawn: Seq<StyledRun<String>>,
    runs: Seq<InlineRun>,
    look: BlockLook,
) -> bool {
    &&& drawn.len() == runs.len()
    &&& forall|i: int| 0 <= i < runs.len() ==> shows_run(#[trigger] drawn[i], runs[i], look)
}

proof fn lemma_drawn_runs_are_shown(
    drawn: Seq<StyledRun<String>>,
    runs: Seq<InlineRun>,
    look: BlockLook,
)
    requires
        run_views(drawn) == drawn_runs(runs, look),
    ensures
        shows_runs(drawn, runs, look),
{
    assert(run_views(drawn).len() == drawn.len());
    assert forall|i: int| 0 <= i < runs.len() implies shows_run(
        #[trigger] drawn[i],
        runs[i],
        look,
    ) by {
        assert(run_views(drawn)[i] == drawn[i]@);
        assert(drawn_runs(runs, look)[i] == drawn_run(runs[i], look));
    }
}

/// Runs are styled one for one.
pub proof fn law_runs_are_styled_one_for_one(
    runs: &Vec<InlineRun>,
    look: BlockLook,
    job: Vec<StyledRun<String>>,
)
    requires
        call_ensures(runs_job, (runs, look), job),
    ensures
        shows_runs(job@, runs@, look),
{
    lemma_drawn_runs_are_shown(job@, runs@, look);
}

/// The last elements of a longer list, seen one by one.
proof fn lemma_added(before: Seq<ShownElement>, after: Seq<ShownElement>, added: Seq<ElementModel>)
    requires
        shown(after) == shown(before) + added,
    ensures
        after.len() == before.len() + added.len(),
        forall|i: int| 0 <= i < before.len() ==> (#[trigger] after[i])@ == before[i]@,
        forall|k: int| 0 <= k < added.len() ==> after[before.len() + k]@ == #[trigger] added[k],
{
    assert(shown(after).len() == after.len());
    assert forall|i: int| 0 <= i < before.len() implies (#[trigger] after[i])@ == before[i]@ by {
        assert(shown(after)[i] == after[i]@);
        assert(shown(before)[i] == before[i]@);
    }
    assert forall|k: int| 0 <= k < added.len() implies after[before.len() + k]@
        == #[trigger] added[k] by {
        assert(shown(after)[before.len() + k] == after[before.len() + k]@);
    }
}

/// A block is added behind what is there, which stays as it was.
pub proof fn law_block_goes_to_the_end(elements: &mut Vec<ShownElement>, node: SceneNode, i: int)
    requires
        call_ensures(lay_out_node, (elements, &node), ()),
        0 <= i < old(elements)@.len(),
    ensures
        old(elements)@.len() < final(elements)@.len(),
        final(elements)@[i]@ == old(elements)@[i]@,
{
    lemma_added(old(elements)@, final(elements)@, node_elements(node));
    assert(node_elements(node).len() > 0);
}

/// Body text, that is a paragraph or feedback, is one block of its runs at the
/// size and in the tone of the body, and a gap.
pub proof fn law_body_text_is_one_block(
    elements: &mut Vec<ShownElement>,
    node: SceneNode,
    text: Vec<InlineRun>,
)
    requires
        call_ensures(lay_out_node, (elements, &node), ()),
        node == (SceneNode::Paragraph { runs: text }) || node == (SceneNode::Feedback {
            runs: text,
        }),
    ensures
        ({
            let n = old(elements)@.len() as int;
            let drawn = final(elements)@;
            &&& drawn.len() == n + 2
            &&& drawn[n] matches Element::Block { runs, points, indented }
            &&& shows_runs(
                runs@,
                text@,
                BlockLook { tone: Tone::Body, italic: false, underline: false },
            )
            &&& points == 15 && !indented
            &&& drawn[n + 1] == ShownElement::Gap(12)
        }),
{
    let added = node_elements(node);
    lemma_added(old(elements)@, final(elements)@, added);
    let n = old(elements)@.len() as int;
    let look = BlockLook { tone: Tone::Body, italic: false, underline: false };
    assert(final(elements)@[n + 0]@ == added[0]);
    assert(final(elements)@[n + 1]@ == added[1]);
    if let Element::Block { runs, .. } = final(elements)@[n] {
        lemma_drawn_runs_are_shown(runs@, text@, look);
    }
}

/// A heading is one block of its runs in the tone of headings, larger the higher
/// its level, between two gaps.
pub proof fn law_heading_is_one_block(
    elements: &mut Vec<ShownElement>,
    level: u8,
    text: Vec<InlineRun>,
)
    requires
        call_ensures(lay_out_node, (elements, &SceneNode::Heading { level, runs: text }), ()),
    ensures
        ({
            let n = old(elements)@.len() as int;
            let drawn = final(elements)@;
            &&& drawn.len() == n + 3
            &&& drawn[n] == ShownElement::Gap(10)
            &&& drawn[n + 1] matches Element::Block { runs, points, indented }
            &&& shows_runs(
                runs@,
                text@,
                BlockLook { tone: Tone::Heading, italic: false, underline: false },
            )
            &&& !indented
            &&& level == 1 ==> points == 26
            &&& level == 2 ==> points == 21
            &&& level == 3 ==> points == 18
            &&& level == 0 || level > 3 ==> points == 16
            &&& drawn[n + 2] == ShownElement::Gap(8)
        }),
{
    let added = node_elements(SceneNode::Heading { level, runs: text });
    lemma_added(old(elements)@, final(elements)@, added);
    let n = old(elements)@.len() as int;
    let look = BlockLook { tone: Tone::Heading, italic: false, underline: false };
    assert(final(elements)@[n + 0]@ == added[0]);
    assert(final(elements)@[n + 1]@ == added[1]);
    assert(final(elements)@[n + 2]@ == added[2]);
    if let Element::Block { runs, .. } = final(elements)@[n + 1] {
        lemma_drawn_runs_are_shown(runs@, text@, look);
    }
}

/// A higher heading is drawn larger, and none smaller than body text.
pub proof fn law_higher_headings_are_larger(a: u8, b: u8, larger: u32, smaller: u32)
    requires
        1 <= a < b,
        call_ensures(heading_points, (a,), larger),
        call_ensures(heading_points, (b,), smaller),
    ensures
        a <= 3 ==> larger > smaller,
        a > 3 ==> larger == smaller,
        smaller > 15,
        a == 1 ==> larger == 26,
        b == 2 ==> smaller == 21,
        b == 3 ==> smaller == 18,
        b > 3 ==> smaller == 16,
{
}

/// A block of code is one box of its text, and a gap.
pub proof fn law_code_is_one_box(elements: &mut Vec<ShownElement>, code: String)
    requires
        call_ensures(lay_out_node, (elements, &SceneNode::CodeBlock { text: code }), ()),
    ensures
        ({
            let n = old(elements)@.len() as int;
            let drawn = final(elements)@;
            &&& drawn.len() == n + 2
            &&& drawn[n] matches Element::CodeBox { text }
            &&& text@ == text::isolated(code@)
            &&& drawn[n + 1] == ShownElement::Gap(12)
        }),
{
    let added = node_elements(SceneNode::CodeBlock { text: code });
    lemma_added(old(elements)@, final(elements)@, added);
    let n = old(elements)@.len() as int;
    assert(final(elements)@[n + 0]@ == added[0]);
    assert(final(elements)@[n + 1]@ == added[1]);
}

/// A quotation is an indented block of its runs, all in italics and muted, then
/// the text of its source behind two dashes where it has one, and a gap.
pub proof fn law_quote_names_its_source(
    elements: &mut Vec<ShownElement>,
    quoted: Vec<InlineRun>,
    attribution: Option<Vec<InlineRun>>,
)
    requires
        call_ensures(
            lay_out_node,
            (elements, &SceneNode::Quote { runs: quoted, attribution }),
            (),
        ),
    ensures
        ({
            let n = old(elements)@.len() as int;
            let drawn = final(elements)@;
            &&& drawn.len() == n + (if attribution is Some {
                3int
            } else {
                2
            })
            &&& drawn[n] matches Element::Block { runs, points, indented }
            &&& shows_runs(
                runs@,
                quoted@,
                BlockLook { tone: Tone::Muted, italic: true, underline: false },
            )
            &&& points == 15 && indented
            &&& attribution matches Some(source) ==> (drawn[n + 1] matches Element::Line {
                text,
                points,
                tone,
                indented,
            } && text@ == "-- "@ + text::isolated(text_of(source@)) && points == 13 && tone
                == Tone::Muted && indented)
            &&& drawn.last() == ShownElement::Gap(12)
        }),
{
    let added = node_elements(SceneNode::Quote { runs: quoted, attribution });
    lemma_added(old(elements)@, final(elements)@, added);
    let n = old(elements)@.len() as int;
    let look = BlockLook { tone: Tone::Muted, italic: true, underline: false };
    assert(final(elements)@[n + 0]@ == added[0]);
    assert(final(elements)@[n + 1]@ == added[1]);
    if attribution is Some {
        assert(final(elements)@[n + 2]@ == added[2]);
    }
    if let Element::Block { runs, .. } = final(elements)@[n] {
        lemma_drawn_runs_are_shown(runs@, quoted@, look);
    }
}

/// The first elements of a list of items.
proof fn lemma_item_elements(ordered: bool, items: Seq<Vec<InlineRun>>, n: nat, i: int)
    requires
        0 <= i < n,
    ensures
        item_elements(ordered, items, n).len() == 2 * n,
        item_elements(ordered, items, n)[2 * i] == (ElementModel::Item {
            bullet: bullet_of(ordered, i as nat),
            runs: drawn_runs(items[i]@, plain_look(Tone::Body)),
        }),
        item_elements(ordered, items, n)[2 * i + 1] == ElementModel::Gap(4),
    decreases n,
{
    let before = item_elements(ordered, items, (n - 1) as nat);
    if n > 1 {
        lemma_item_elements(ordered, items, (n - 1) as nat, if i < n - 1 {
            i
        } else {
            0
        });
    }
    assert(before.len() == 2 * (n - 1));
}

/// `drawn` shows item `i` of a list, whose text is `text`. A numbered item has
/// its place in the list, counted from one, and a period; any other a bullet.
pub open spec fn shows_item(
    drawn: ShownElement,
    ordered: bool,
    i: int,
    text: Seq<InlineRun>,
) -> bool {
    &&& drawn matches Element::Item { bullet, runs }
    &&& shows_runs(
        runs@,
        text,
        BlockLook { tone: Tone::Body, italic: false, underline: false },
    )
    &&& !ordered ==> bullet@ == "\u{2022}"@
    &&& ordered ==> {
        &&& bullet@.len() > 1
        &&& bullet@.last() == '.'
        &&& text::number_of(bullet@.drop_last()) == i + 1
    }
}

/// A list has one element for each of its items, in order, each with the runs of
/// that very item and followed by a gap.
pub proof fn law_each_item_is_listed_once(
    elements: &mut Vec<ShownElement>,
    ordered: bool,
    items: Vec<Vec<InlineRun>>,
    i: int,
)
    requires
        call_ensures(lay_out_node, (elements, &SceneNode::List { ordered, items }), ()),
    ensures
        final(elements)@.len() == old(elements)@.len() + 2 * items@.len() + 1,
        0 <= i < items@.len() ==> {
            &&& shows_item(final(elements)@[old(elements)@.len() + 2 * i], ordered, i, items@[i]@)
            &&& final(elements)@[old(elements)@.len() + 2 * i + 1] == ShownElement::Gap(4)
        },
        final(elements)@.last() == ShownElement::Gap(10),
{
    let added = node_elements(SceneNode::List { ordered, items });
    let listed = item_elements(ordered, items@, items@.len());
    lemma_added(old(elements)@, final(elements)@, added);
    let n = old(elements)@.len() as int;
    let drawn = final(elements)@;
    let count = items@.len();
    if count > 0 {
        lemma_item_elements(ordered, items@, count, 0);
    }
    assert(listed.len() == 2 * count);
    assert(drawn[n + 2 * count]@ == added[2 * count as int]);
    assert(drawn.len() == n + 2 * count + 1);
    assert(drawn.last() == drawn[n + 2 * count]);
    assert(drawn.last() == ShownElement::Gap(10));
    let look = BlockLook { tone: Tone::Body, italic: false, underline: false };
    if 0 <= i < count {
        lemma_item_elements(ordered, items@, count, i);
        assert(added[2 * i] == listed[2 * i]);
        assert(added[2 * i + 1] == listed[2 * i + 1]);
        assert(drawn[n + 2 * i]@ == added[2 * i]);
        assert(drawn[n + (2 * i + 1)]@ == added[2 * i + 1]);
        assert(drawn[n + 2 * i] is Item);
        if let Element::Item { bullet, runs } = drawn[n + 2 * i] {
            lemma_drawn_runs_are_shown(runs@, items@[i]@, look);
            if ordered {
                reveal_strlit(".");
                text::lemma_decimal_reads_back((i + 1) as nat);
                assert(bullet@ == text::decimal((i + 1) as nat) + "."@);
                assert(bullet@.drop_last() =~= text::decimal((i + 1) as nat));
            }
        }
    }
}

/// A divider is a rule between two gaps.
pub proof fn law_divider_is_a_rule(elements: &mut Vec<ShownElement>)
    requires
        call_ensures(lay_out_node, (elements, &SceneNode::Divider), ()),
    ensures
        ({
            let n = old(elements)@.len() as int;
            let drawn = final(elements)@;
            &&& drawn.len() == n + 3
            &&& drawn[n] == ShownElement::Gap(4)
            &&& drawn[n + 1] == ShownElement::Rule
            &&& drawn[n + 2] == ShownElement::Gap(8)
        }),
{
    let added = node_elements(SceneNode::Divider);
    lemma_added(old(elements)@, final(elements)@, added);
    let n = old(elements)@.len() as int;
    assert(final(elements)@[n + 0]@ == added[0]);
    assert(final(elements)@[n + 1]@ == added[1]);
    assert(final(elements)@[n + 2]@ == added[2]);
}

/// An image is one box that says its alternative text, or that it is an image
/// where it has none, with its caption where it has one.
pub proof fn law_image_is_told_by_its_text(elements: &mut Vec<ShownElement>, image: ImageRef)
    requires
        call_ensures(lay_out_node, (elements, &SceneNode::Image { image }), ()),
    ensures
        ({
            let n = old(elements)@.len() as int;
            let drawn = final(elements)@;
            &&& drawn.len() == n + 2
            &&& drawn[n] matches Element::ImageBox { text, caption }
            &&& image.alt@.len() > 0 ==> text@ == "[image: "@ + text::isolated(image.alt@) + "]"@
            &&& image.alt@.len() == 0 ==> text@ == "[image: "@ + "image"@ + "]"@
            &&& caption is Some <==> image.caption is Some
            &&& caption matches Some(c) ==> c@ == text::isolated(image.caption->0@)
            &&& drawn[n + 1] == ShownElement::Gap(12)
        }),
{
    let added = node_elements(SceneNode::Image { image });
    lemma_added(old(elements)@, final(elements)@, added);
    let n = old(elements)@.len() as int;
    assert(final(elements)@[n + 0]@ == added[0]);
    assert(final(elements)@[n + 1]@ == added[1]);
}

/// A link shows its label underlined in the tone of links. A click leads to its
/// own destination over its own boundary where it leaves the protocol, and
/// nowhere where it does not.
pub proof fn law_link_leads_where_it_says(
    elements: &mut Vec<ShownElement>,
    label: Vec<InlineRun>,
    link: LinkRef,
)
    requires
        call_ensures(lay_out_node, (elements, &SceneNode::Link { label, link }), ()),
    ensures
        ({
            let n = old(elements)@.len() as int;
            let drawn = final(elements)@;
            &&& drawn.len() == n + 2
            &&& drawn[n] matches Element::Link { runs, handoff }
            &&& shows_runs(
                runs@,
                label@,
                BlockLook { tone: Tone::Link, italic: false, underline: true },
            )
            &&& match link {
                LinkRef::Carrier { url } => handoff matches Some((kind, target)) && kind
                    == HandoffKind::Carrier && target@ == url@,
                LinkRef::Citation { url } => handoff matches Some((kind, target)) && kind
                    == HandoffKind::Citation && target@ == url@,
                LinkRef::SameSite { .. } => handoff is None,
                LinkRef::Entangled => handoff is None,
            }
            &&& drawn[n + 1] == ShownElement::Gap(12)
        }),
{
    let added = node_elements(SceneNode::Link { label, link });
    lemma_added(old(elements)@, final(elements)@, added);
    let n = old(elements)@.len() as int;
    let look = BlockLook { tone: Tone::Link, italic: false, underline: true };
    assert(final(elements)@[n + 0]@ == added[0]);
    assert(final(elements)@[n + 1]@ == added[1]);
    if let Element::Link { runs, .. } = final(elements)@[n] {
        lemma_drawn_runs_are_shown(runs@, label@, look);
    }
}

/// The handoff of a link is to its own destination over its own boundary; a link
/// within the protocol has none.
pub proof fn law_handoff_is_the_links_own(link: LinkRef, handoff: Option<Handoff>)
    requires
        call_ensures(external_handoff, (&link,), handoff),
    ensures
        match link {
            LinkRef::Carrier { url } => handoff matches Some(h) && h.kind == HandoffKind::Carrier
                && h.url@ == url@,
            LinkRef::Citation { url } => handoff matches Some(h) && h.kind == HandoffKind::Citation
                && h.url@ == url@,
            LinkRef::SameSite { .. } => handoff is None,
            LinkRef::Entangled => handoff is None,
        },
{
}

/// The label of a field is its kind in brackets and its own text.
pub proof fn law_field_is_labelled_by_its_kind(field: FormFieldView, text: String)
    requires
        call_ensures(field_label, (&field,), text),
    ensures
        match field {
            FormFieldView::Text { label } => text@ == "["@ + "text"@ + "] "@ + label@,
            FormFieldView::Textarea { label } => text@ == "["@ + "textarea"@ + "] "@ + label@,
            FormFieldView::Select { label } => text@ == "["@ + "select"@ + "] "@ + label@,
            FormFieldView::Checkbox { label } => text@ == "["@ + "checkbox"@ + "] "@ + label@,
        },
{
}

proof fn lemma_field_elements(fields: Seq<FormFieldView>, n: nat, i: int)
    requires
        0 <= i < n,
    ensures
        field_elements(fields, n).len() == n,
        field_elements(fields, n)[i] == (ElementModel::Line {
            text: field_text(fields[i].spec_kind(), text::isolated(fields[i].spec_label())),
            points: 15,
            tone: Tone::Muted,
            indented: true,
        }),
    decreases n,
{
    let before = field_elements(fields, (n - 1) as nat);
    if n > 1 {
        lemma_field_elements(fields, (n - 1) as nat, if i < n - 1 {
            i
        } else {
            0
        });
    }
    assert(before.len() == n - 1);
}

/// A form shows its title, then one line for each of its fields, in order, with
/// the field's kind and its own label, then its button.
pub proof fn law_each_field_is_shown_once(
    elements: &mut Vec<ShownElement>,
    label: Vec<InlineRun>,
    fields: Vec<FormFieldView>,
    submit_label: String,
)
    requires
        call_ensures(
            lay_out_node,
            (elements, &SceneNode::SubmitForm { label, fields, submit_label }),
            (),
        ),
    ensures
        ({
            let n = old(elements)@.len() as int;
            let count = fields@.len() as int;
            let drawn = final(elements)@;
            &&& drawn.len() == n + count + 5
            &&& drawn[n] matches Element::Block { runs, points, indented }
            &&& shows_runs(
                runs@,
                label@,
                BlockLook { tone: Tone::Heading, italic: false, underline: false },
            )
            &&& points == 16 && !indented
            &&& drawn[n + 1] == ShownElement::Gap(4)
            &&& forall|i: int|
                #![trigger fields@[i]]
                0 <= i < count ==> {
                    &&& drawn[n + 2 + i] matches Element::Line { text, points, tone, indented }
                    &&& match fields@[i] {
                        FormFieldView::Text { label } => text@ == "["@ + "text"@ + "] "@
                            + text::isolated(label@),
                        FormFieldView::Textarea { label } => text@ == "["@ + "textarea"@ + "] "@
                            + text::isolated(label@),
                        FormFieldView::Select { label } => text@ == "["@ + "select"@ + "] "@
                            + text::isolated(label@),
                        FormFieldView::Checkbox { label } => text@ == "["@ + "checkbox"@ + "] "@
                            + text::isolated(label@),
                    }
                    &&& points == 15 && tone == Tone::Muted && indented
                }
            &&& drawn[n + 2 + count] == ShownElement::Gap(4)
            &&& drawn[n + 3 + count] matches Element::Line { text, points, tone, indented }
            &&& text@ == "[ "@ + text::isolated(submit_label@) + " ]"@
            &&& points == 15 && tone == Tone::Body && !indented
            &&& drawn[n + 4 + count] == ShownElement::Gap(12)
        }),
{
    let added = node_elements(SceneNode::SubmitForm { label, fields, submit_label });
    let lines = field_elements(fields@, fields@.len());
    lemma_added(old(elements)@, final(elements)@, added);
    let n = old(elements)@.len() as int;
    let count = fields@.len() as int;
    let drawn = final(elements)@;
    if count > 0 {
        lemma_field_elements(fields@, fields@.len(), 0);
    }
    assert(lines.len() == count);
    let look = BlockLook { tone: Tone::Heading, italic: false, underline: false };
    assert(drawn[n + 0]@ == added[0]);
    assert(drawn[n + 1]@ == added[1]);
    assert(drawn[n + (2 + count)]@ == added[2 + count]);
    assert(drawn[n + (3 + count)]@ == added[3 + count]);
    assert(drawn[n + (4 + count)]@ == added[4 + count]);
    if let Element::Block { runs, .. } = drawn[n] {
        lemma_drawn_runs_are_shown(runs@, label@, look);
    }
    assert forall|i: int|
        #![trigger fields@[i]]
        0 <= i < count implies {
        &&& drawn[n + 2 + i] matches Element::Line { text, points, tone, indented }
        &&& match fields@[i] {
            FormFieldView::Text { label } => text@ == "["@ + "text"@ + "] "@ + text::isolated(
                label@,
            ),
            FormFieldView::Textarea { label } => text@ == "["@ + "textarea"@ + "] "@
                + text::isolated(label@),
            FormFieldView::Select { label } => text@ == "["@ + "select"@ + "] "@ + text::isolated(
                label@,
            ),
            FormFieldView::Checkbox { label } => text@ == "["@ + "checkbox"@ + "] "@
                + text::isolated(label@),
        }
        &&& points == 15 && tone == Tone::Muted && indented
    } by {
        lemma_field_elements(fields@, fields@.len(), i);
        assert(added[2 + i] == lines[i]);
        assert(drawn[n + (2 + i)]@ == added[2 + i]);
    }
}

/// A note is one box of its runs under its title, where it has one, and a gap.
pub proof fn law_note_is_one_box(
    elements: &mut Vec<ShownElement>,
    heading: Option<String>,
    text: Vec<InlineRun>,
)
    requires
        call_ensures(
            lay_out_node,
            (elements, &SceneNode::Note { title: heading, runs: text }),
            (),
        ),
    ensures
        ({
            let n = old(elements)@.len() as int;
            let drawn = final(elements)@;
            &&& drawn.len() == n + 2
            &&& drawn[n] matches Element::NoteBox { title, runs }
            &&& shows_runs(
                runs@,
                text@,
                BlockLook { tone: Tone::Body, italic: false, underline: false },
            )
            &&& title is Some <==> heading is Some
            &&& title matches Some(t) ==> t@ == text::isolated(heading->0@)
            &&& drawn[n + 1] == ShownElement::Gap(12)
        }),
{
    let added = node_elements(SceneNode::Note { title: heading, runs: text });
    lemma_added(old(elements)@, final(elements)@, added);
    let n = old(elements)@.len() as int;
    let look = BlockLook { tone: Tone::Body, italic: false, underline: false };
    assert(final(elements)@[n + 0]@ == added[0]);
    assert(final(elements)@[n + 1]@ == added[1]);
    if let Element::NoteBox { runs, .. } = final(elements)@[n] {
        lemma_drawn_runs_are_shown(runs@, text@, look);
    }
}

proof fn lemma_scene_elements_join(a: Seq<SceneNode>, b: Seq<SceneNode>, n: nat)
    requires
        n <= b.len(),
    ensures
        scene_elements(a + b, a.len() + n) == scene_elements(a, a.len()) + scene_elements(b, n),
    decreases n,
{
    if n == 0 {
        lemma_scene_elements_prefix(a, b, a.len());
        assert(scene_elements(a, a.len()) + scene_elements(b, 0) =~= scene_elements(a, a.len()));
    } else {
        lemma_scene_elements_join(a, b, (n - 1) as nat);
        assert((a + b)[a.len() + n - 1] == b[n - 1]);
        assert((a.len() + n - 1) as nat == a.len() + (n - 1) as nat);
        assert(scene_elements(a + b, a.len() + n) =~= scene_elements(a, a.len())
            + scene_elements(b, n));
    }
}

proof fn lemma_scene_elements_prefix(a: Seq<SceneNode>, b: Seq<SceneNode>, n: nat)
    requires
        n <= a.len(),
    ensures
        scene_elements(a + b, n) == scene_elements(a, n),
    decreases n,
{
    if n > 0 {
        lemma_scene_elements_prefix(a, b, (n - 1) as nat);
        assert((a + b)[n - 1] == a[n - 1]);
    }
}

/// A scene is laid out block by block: two scenes one after the other are laid
/// out as the first and then the second, so that no block is dropped, repeated
/// or moved.
pub proof fn law_scenes_are_laid_out_in_order(
    first: Scene,
    second: Scene,
    both: Scene,
    of_first: Vec<ShownElement>,
    of_second: Vec<ShownElement>,
    of_both: Vec<ShownElement>,
)
    requires
        both.nodes@ == first.nodes@ + second.nodes@,
        call_ensures(lay_out, (&first,), of_first),
        call_ensures(lay_out, (&second,), of_second),
        call_ensures(lay_out, (&both,), of_both),
    ensures
        shown(of_both@) == shown(of_first@) + shown(of_second@),
{
    lemma_scene_elements_join(first.nodes@, second.nodes@, second.nodes@.len());
}

/// A scene of one block is that block laid out.
pub proof fn law_scene_of_one_block_is_that_block(
    scene: Scene,
    node: SceneNode,
    drawn: Vec<ShownElement>,
    elements: &mut Vec<ShownElement>,
)
    requires
        scene.nodes@ == seq![node],
        call_ensures(lay_out, (&scene,), drawn),
        old(elements)@.len() == 0,
        call_ensures(lay_out_node, (elements, &node), ()),
    ensures
        shown(drawn@) == shown(final(elements)@),
{
    reveal_with_fuel(scene_elements, 2);
    assert(scene.nodes@[0] == node);
    assert(shown(old(elements)@) =~= seq![]);
    assert(shown(drawn@) =~= shown(final(elements)@));
}

proof fn lemma_text_of_joins(a: Seq<InlineRun>, b: Seq<InlineRun>)
    ensures
        text_of(a + b) == text_of(a) + text_of(b),
    decreases b.len(),
{
    if b.len() == 0 {
        assert(a + b =~= a);
        assert(text_of(a) + text_of(b) =~= text_of(a));
    } else {
        lemma_text_of_joins(a, b.drop_last());
        assert((a + b).drop_last() =~= a + b.drop_last());
        assert((a + b).last() == b.last());
        assert(text_of(a + b) =~= text_of(a) + text_of(b));
    }
}

/// The text of runs is their texts one after the other: that of two lists in a
/// row is that of the first and then of the second, and that of one run is its
/// own.
pub proof fn law_runs_read_in_order(
    first: &Vec<InlineRun>,
    second: &Vec<InlineRun>,
    both: &Vec<InlineRun>,
    run: InlineRun,
    of_first: String,
    of_second: String,
    of_both: String,
)
    requires
        both@ == first@ + second@,
        call_ensures(runs_text, (first,), of_first),
        call_ensures(runs_text, (second,), of_second),
        call_ensures(runs_text, (both,), of_both),
    ensures
        of_both@ == of_first@ + of_second@,
        first@ == seq![run] ==> (match run {
            InlineRun::Text { text, .. } => of_first@ == text@,
            InlineRun::Link { text, .. } => of_first@ == text@,
        }),
{
    lemma_text_of_joins(first@, second@);
    if first@ == seq![run] {
        assert(first@.drop_last() =~= seq![]);
        assert(text_of(seq![]) =~= seq![]);
        assert(text_of(first@) =~= run.spec_text());
    }
}

} // verus!
