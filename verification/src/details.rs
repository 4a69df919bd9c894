//! Detail rows shown beside a list item: tags, links, commands, and
//! separators, grouped under labelled metadata elements.
use vstd::prelude::*;
use std::sync::Arc;
use crate::page::Color;

verus! {

/// A visual separator between sections of a details pane; it carries no data
/// and reacts to nothing.
#[derive(Clone, Copy, PartialEq, Eq, Structural, Debug)]
pub struct DetailsSeparator;

impl DetailsSeparator {
    /// Creates a separator.
    pub fn new() -> (r: Self)
        ensures
            r == DetailsSeparator,
    {
        DetailsSeparator
    }
}

/// A small coloured label attached to an item.
#[derive(Clone, Debug)]
pub struct Tag {
    /// The icon shown with the tag, if any.
    pub icon: Option<String>,
    /// The tag's text.
    pub text: String,
    /// The text colour, if the host should not pick one.
    pub foreground: Option<Color>,
    /// The background colour, if the host should not pick one.
    pub background: Option<Color>,
    /// The text shown when hovering over the tag.
    pub tooltip: String,
}

/// Builder for [`Tag`].
pub struct TagBuilder {
    icon: Option<String>,
    text: String,
    foreground: Option<Color>,
    background: Option<Color>,
    tooltip: String,
}

impl TagBuilder {
    /// The icon set so far.
    pub closed spec fn icon_spec(self) -> Option<String> {
        self.icon
    }

    /// The text set so far.
    pub closed spec fn text_spec(self) -> String {
        self.text
    }

    /// The foreground colour set so far.
    pub closed spec fn foreground_spec(self) -> Option<Color> {
        self.foreground
    }

    /// The background colour set so far.
    pub closed spec fn background_spec(self) -> Option<Color> {
        self.background
    }

    /// The tooltip set so far.
    pub closed spec fn tooltip_spec(self) -> String {
        self.tooltip
    }

    /// Starts a tag: no icon, no colours, empty texts.
    pub fn new() -> (r: Self)
        ensures
            r.icon_spec() is None,
            r.text_spec()@ == Seq::<char>::empty(),
            r.foreground_spec() is None,
            r.background_spec() is None,
            r.tooltip_spec()@ == Seq::<char>::empty(),
    {
        TagBuilder {
            icon: None,
            text: String::new(),
            foreground: None,
            background: None,
            tooltip: String::new(),
        }
    }

    /// Sets the tag's icon.
    pub fn icon(self, icon: String) -> (r: Self)
        ensures
            r.icon_spec() == Some(icon),
            r.text_spec() == self.text_spec(),
            r.foreground_spec() == self.foreground_spec(),
            r.background_spec() == self.background_spec(),
            r.tooltip_spec() == self.tooltip_spec(),
    {
        TagBuilder { icon: Some(icon), ..self }
    }

    /// Sets the tag's text.
    pub fn text(self, text: &str) -> (r: Self)
        ensures
            r.text_spec()@ == text@,
            r.icon_spec() == self.icon_spec(),
            r.foreground_spec() == self.foreground_spec(),
            r.background_spec() == self.background_spec(),
            r.tooltip_spec() == self.tooltip_spec(),
    {
        TagBuilder { text: text.to_owned(), ..self }
    }

    /// Sets the text colour.
    pub fn foreground(self, color: Color) -> (r: Self)
        ensures
            r.foreground_spec() == Some(color),
            r.icon_spec() == self.icon_spec(),
            r.text_spec() == self.text_spec(),
            r.background_spec() == self.background_spec(),
            r.tooltip_spec() == self.tooltip_spec(),
    {
        TagBuilder { foreground: Some(color), ..self }
    }

    /// Sets the background colour.
    pub fn background(self, color: Color) -> (r: Self)
        ensures
            r.background_spec() == Some(color),
            r.icon_spec() == self.icon_spec(),
            r.text_spec() == self.text_spec(),
            r.foreground_spec() == self.foreground_spec(),
            r.tooltip_spec() == self.tooltip_spec(),
    {
        TagBuilder { background: Some(color), ..self }
    }

    /// Sets the hover text.
    pub fn tooltip(self, tooltip: &str) -> (r: Self)
        ensures
            r.tooltip_spec()@ == tooltip@,
            r.icon_spec() == self.icon_spec(),
            r.text_spec() == self.text_spec(),
            r.foreground_spec() == self.foreground_spec(),
            r.background_spec() == self.background_spec(),
    {
        TagBuilder { tooltip: tooltip.to_owned(), ..self }
    }

    /// Assembles the tag.
    pub fn build(self) -> (r: Tag)
        ensures
            r.icon == self.icon_spec(),
            r.text == self.text_spec(),
            r.foreground == self.foreground_spec(),
            r.background == self.background_spec(),
            r.tooltip == self.tooltip_spec(),
    {
        Tag {
            icon: self.icon,
            text: self.text,
            foreground: self.foreground,
            background: self.background,
            tooltip: self.tooltip,
        }
    }
}

/// A group of tags shown as one detail row.
#[derive(Clone, Debug)]
pub struct DetailsTags {
    /// The tags, in the order they are shown.
    pub tags: Vec<Tag>,
}

/// A link shown as one detail row.
#[derive(Clone, Debug)]
pub struct DetailsLink {
    /// The address the link opens.
    pub link: String,
    /// The text shown for the link.
    pub text: String,
}

impl DetailsLink {
    /// Creates a link opening `link`, shown as `text`.
    pub fn new(link: &str, text: &str) -> (r: Self)
        ensures
            r.link@ == link@,
            r.text@ == text@,
    {
        DetailsLink { link: link.to_owned(), text: text.to_owned() }
    }
}

/// A command shown as one detail row.
pub struct DetailsCommand<C> {
    /// The shared command the row runs.
    pub command: Arc<C>,
}

impl<C> DetailsCommand<C> {
    /// Creates a detail row running the shared `command`.
    pub fn new(command: Arc<C>) -> (r: Self)
        ensures
            r.command == command,
    {
        DetailsCommand { command }
    }
}

/// What one detail row shows.
pub enum DetailsData<C> {
    /// A group of tags.
    Tags(DetailsTags),
    /// A link.
    Link(DetailsLink),
    /// A command.
    Command(DetailsCommand<C>),
    /// A visual separator.
    Separator(DetailsSeparator),
}

/// One labelled detail row.
pub struct DetailsElement<C> {
    /// The label shown for the row; empty for an unlabelled row.
    pub key: String,
    /// What the row shows.
    pub data: DetailsData<C>,
}

impl<C> DetailsElement<C> {
    /// Creates a row labelled `key` showing `data`.
    pub fn new(key: &str, data: DetailsData<C>) -> (r: Self)
        ensures
            r.key@ == key@,
            r.data == data,
    {
        DetailsElement { key: key.to_owned(), data }
    }
}

/// The details pane shown beside an item.
pub struct Details<C> {
    /// The large image shown on top, if any.
    pub hero_image: Option<String>,
    /// The pane's title.
    pub title: String,
    /// The pane's body text.
    pub body: String,
    /// The labelled rows shown under the body.
    pub metadata: Vec<DetailsElement<C>>,
}

/// Builder for [`Details`].
pub struct DetailsBuilder<C> {
    hero_image: Option<String>,
    title: String,
    body: String,
    metadata: Vec<DetailsElement<C>>,
}

impl<C> DetailsBuilder<C> {
    /// The hero image set so far.
    pub closed spec fn hero_image_spec(self) -> Option<String> {
        self.hero_image
    }

    /// The title set so far.
    pub closed spec fn title_spec(self) -> String {
        self.title
    }

    /// The body set so far.
    pub closed spec fn body_spec(self) -> String {
        self.body
    }

    /// The rows added so far.
    pub closed spec fn metadata_spec(self) -> Seq<DetailsElement<C>> {
        self.metadata@
    }

    /// Starts a details pane: no image, empty texts, no rows.
    pub fn new() -> (r: Self)
        ensures
            r.hero_image_spec() is None,
            r.title_spec()@ == Seq::<char>::empty(),
            r.body_spec()@ == Seq::<char>::empty(),
            r.metadata_spec() == Seq::<DetailsElement<C>>::empty(),
    {
        let r = DetailsBuilder {
            hero_image: None,
            title: String::new(),
            body: String::new(),
            metadata: Vec::new(),
        };
        proof {
            assert(r.metadata_spec() =~= Seq::<DetailsElement<C>>::empty());
        }
        r
    }

    /// Sets the large image shown on top.
    pub fn hero_image(self, hero_image: String) -> (r: Self)
        ensures
            r.hero_image_spec() == Some(hero_image),
            r.title_spec() == self.title_spec(),
            r.body_spec() == self.body_spec(),
            r.metadata_spec() == self.metadata_spec(),
    {
        DetailsBuilder { hero_image: Some(hero_image), ..self }
    }

    /// Sets the pane's title.
    pub fn title(self, title: &str) -> (r: Self)
        ensures
            r.title_spec()@ == title@,
            r.hero_image_spec() == self.hero_image_spec(),
            r.body_spec() == self.body_spec(),
            r.metadata_spec() == self.metadata_spec(),
    {
        DetailsBuilder { title: title.to_owned(), ..self }
    }

    /// Sets the pane's body text.
    pub fn body(self, body: &str) -> (r: Self)
        ensures
            r.body_spec()@ == body@,
            r.hero_image_spec() == self.hero_image_spec(),
            r.title_spec() == self.title_spec(),
            r.metadata_spec() == self.metadata_spec(),
    {
        DetailsBuilder { body: body.to_owned(), ..self }
    }

    /// Replaces the labelled rows.
    pub fn metadata(self, metadata: Vec<DetailsElement<C>>) -> (r: Self)
        ensures
            r.metadata_spec() == metadata@,
            r.hero_image_spec() == self.hero_image_spec(),
            r.title_spec() == self.title_spec(),
            r.body_spec() == self.body_spec(),
    {
        DetailsBuilder { metadata, ..self }
    }

    /// Appends one labelled row.
    pub fn add_metadata(self, element: DetailsElement<C>) -> (r: Self)
        ensures
            r.metadata_spec() == self.metadata_spec().push(element),
            r.hero_image_spec() == self.hero_image_spec(),
            r.title_spec() == self.title_spec(),
            r.body_spec() == self.body_spec(),
    {
        let mut metadata = self.metadata;
        metadata.push(element);
        DetailsBuilder { metadata, ..self }
    }

    /// Appends one unlabelled row.
    pub fn add_unnamed_metadata(self, data: DetailsData<C>) -> (r: Self)
        ensures
            r.metadata_spec().len() == self.metadata_spec().len() + 1,
            r.metadata_spec().drop_last() == self.metadata_spec(),
            r.metadata_spec().last().key@ == Seq::<char>::empty(),
            r.metadata_spec().last().data == data,
            r.hero_image_spec() == self.hero_image_spec(),
            r.title_spec() == self.title_spec(),
            r.body_spec() == self.body_spec(),
    {
        proof {
            reveal_strlit("");
            assert(""@ =~= Seq::<char>::empty());
        }
        self.add_metadata(DetailsElement::new("", data))
    }

    /// Assembles the details pane.
    pub fn build(self) -> (r: Details<C>)
        ensures
            r.hero_image == self.hero_image_spec(),
            r.title == self.title_spec(),
            r.body == self.body_spec(),
            r.metadata@ == self.metadata_spec(),
    {
        Details {
            hero_image: self.hero_image,
            title: self.title,
            body: self.body,
            metadata: self.metadata,
        }
    }
}

} // verus!
