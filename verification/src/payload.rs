//! The message payload: free-text content, embeds, rows of interactive
//! components and the names of referenced attachments.

use vstd::prelude::*;
use crate::template::{
    expanded, lemma_expansion_without_variables, replace_variables, MessageVariables,
};

verus! {

/// One more thing that the platform shows of an embed, a component or an
/// option, as a named text: a colour, a footer, a style and the like. The
/// library gives it no meaning of its own; it is dispatched as it stands
/// and takes part in the digest.
#[derive(Debug, Clone, PartialEq, Eq)]
pub struct Property {
    pub name: String,
    pub value: String,
}

/// A rich embed of a message.
#[derive(Debug, Clone, PartialEq, Eq)]
pub struct MessageEmbed {
    pub title: String,
    pub description: String,
    pub properties: Vec<Property>,
}

/// The kind of an interactive component.
#[derive(Debug, Clone, Copy, PartialEq, Eq)]
pub enum ComponentKind {
    Button,
    SelectMenu,
    Other,
}

/// One option of a select menu. Its `value` carries the action token.
#[derive(Debug, Clone, PartialEq, Eq)]
pub struct SelectOption {
    pub label: String,
    pub value: String,
    pub properties: Vec<Property>,
}

/// An interactive component. The `custom_id` of a button carries the action
/// token; a select menu carries one in each of its options.
#[derive(Debug, Clone, PartialEq, Eq)]
pub struct MessageComponent {
    pub kind: ComponentKind,
    pub label: String,
    pub custom_id: String,
    pub options: Vec<SelectOption>,
    pub properties: Vec<Property>,
}

/// One row of interactive components.
#[derive(Debug, Clone, PartialEq, Eq)]
pub struct ComponentRow {
    pub components: Vec<MessageComponent>,
}

/// A template-bearing message definition.
#[derive(Debug, Clone, PartialEq, Eq)]
pub struct MessagePayload {
    pub content: String,
    pub embeds: Vec<MessageEmbed>,
    pub components: Vec<ComponentRow>,
    pub attachments: Vec<String>,
}

/// What a property holds.
pub ghost struct PropertyView {
    pub name: Seq<char>,
    pub value: Seq<char>,
}

/// What an embed holds.
pub ghost struct EmbedView {
    pub title: Seq<char>,
    pub description: Seq<char>,
    pub properties: Seq<PropertyView>,
}

/// What an option of a select menu holds.
pub ghost struct OptionView {
    pub label: Seq<char>,
    pub value: Seq<char>,
    pub properties: Seq<PropertyView>,
}

/// What a component holds.
pub ghost struct ComponentView {
    pub kind: ComponentKind,
    pub label: Seq<char>,
    pub custom_id: Seq<char>,
    pub options: Seq<OptionView>,
    pub properties: Seq<PropertyView>,
}

/// What a payload holds.
pub ghost struct PayloadView {
    pub content: Seq<char>,
    pub embeds: Seq<EmbedView>,
    pub components: Seq<Seq<ComponentView>>,
    pub attachments: Seq<Seq<char>>,
}

impl View for Property {
    type V = PropertyView;

    open spec fn view(&self) -> PropertyView {
        PropertyView { name: self.name@, value: self.value@ }
    }
}

/// What a list of properties holds.
pub open spec fn property_views(properties: Seq<Property>) -> Seq<PropertyView> {
    properties.map_values(|p: Property| p@)
}

impl View for MessageEmbed {
    type V = EmbedView;

    open spec fn view(&self) -> EmbedView {
        EmbedView {
            title: self.title@,
            description: self.description@,
            properties: property_views(self.properties@),
        }
    }
}

impl View for SelectOption {
    type V = OptionView;

    open spec fn view(&self) -> OptionView {
        OptionView {
            label: self.label@,
            value: self.value@,
            properties: property_views(self.properties@),
        }
    }
}

impl View for MessageComponent {
    type V = ComponentView;

    open spec fn view(&self) -> ComponentView {
        ComponentView {
            kind: self.kind,
            label: self.label@,
            custom_id: self.custom_id@,
            options: self.options@.map_values(|o: SelectOption| o@),
            properties: property_views(self.properties@),
        }
    }
}

impl View for ComponentRow {
    type V = Seq<ComponentView>;

    open spec fn view(&self) -> Seq<ComponentView> {
        self.components@.map_values(|c: MessageComponent| c@)
    }
}

impl View for MessagePayload {
    type V = PayloadView;

    open spec fn view(&self) -> PayloadView {
        PayloadView {
            content: self.content@,
            embeds: self.embeds@.map_values(|e: MessageEmbed| e@),
            components: self.components@.map_values(|r: ComponentRow| r@),
            attachments: self.attachments@.map_values(|a: String| a@),
        }
    }
}

/// The property `property` after template expansion: its value is expanded,
/// its name stays.
pub open spec fn expanded_property(
    property: PropertyView,
    vars: Map<Seq<char>, Seq<char>>,
) -> PropertyView {
    PropertyView { name: property.name, value: expanded(property.value, vars) }
}

/// A list of properties after template expansion.
pub open spec fn expanded_properties(
    properties: Seq<PropertyView>,
    vars: Map<Seq<char>, Seq<char>>,
) -> Seq<PropertyView> {
    properties.map_values(|p: PropertyView| expanded_property(p, vars))
}

/// The embed `embed` after template expansion: its title, its description
/// and the values of its properties are expanded.
pub open spec fn expanded_embed(embed: EmbedView, vars: Map<Seq<char>, Seq<char>>) -> EmbedView {
    EmbedView {
        title: expanded(embed.title, vars),
        description: expanded(embed.description, vars),
        properties: expanded_properties(embed.properties, vars),
    }
}

/// The payload `payload` after template expansion: the content and the text
/// of every embed are expanded; components and attachments stay.
pub open spec fn expanded_payload(
    payload: PayloadView,
    vars: Map<Seq<char>, Seq<char>>,
) -> PayloadView {
    PayloadView {
        content: expanded(payload.content, vars),
        embeds: payload.embeds.map_values(|e: EmbedView| expanded_embed(e, vars)),
        components: payload.components,
        attachments: payload.attachments,
    }
}

/// Without variables, a payload expands to itself.
pub proof fn lemma_payload_expansion_without_variables(payload: PayloadView)
    ensures
        expanded_payload(payload, Map::empty()) == payload,
{
    let vars = Map::<Seq<char>, Seq<char>>::empty();
    lemma_expansion_without_variables(payload.content);
    let embeds = payload.embeds.map_values(|e: EmbedView| expanded_embed(e, vars));
    assert forall|i: int| 0 <= i < payload.embeds.len() implies embeds[i] == payload.embeds[i] by {
        let embed = payload.embeds[i];
        lemma_expansion_without_variables(embed.title);
        lemma_expansion_without_variables(embed.description);
        let properties = expanded_properties(embed.properties, vars);
        assert forall|k: int| 0 <= k < embed.properties.len() implies properties[k]
            == embed.properties[k] by {
            lemma_expansion_without_variables(embed.properties[k].value);
        }
        assert(properties =~= embed.properties);
    }
    assert(embeds =~= payload.embeds);
}

/// A copy of a list of properties.
pub fn duplicate_properties(properties: &Vec<Property>) -> (copy: Vec<Property>)
    ensures
        property_views(copy@) == property_views(properties@),
{
    let mut copy: Vec<Property> = Vec::new();
    let mut i: usize = 0;
    while i < properties.len()
        invariant
            i <= properties.len(),
            property_views(copy@) == property_views(properties@).take(i as int),
        decreases properties.len() - i,
    {
        let ghost before = copy@;
        copy.push(
            Property { name: properties[i].name.clone(), value: properties[i].value.clone() },
        );
        assert(property_views(copy@) == property_views(before).push(properties[i as int]@));
        assert(property_views(properties@).take(i + 1) == property_views(properties@).take(
            i as int,
        ).push(properties[i as int]@));
        i += 1;
    }
    assert(property_views(properties@).take(i as int) == property_views(properties@));
    copy
}

/// Expands the values of a list of properties.
pub fn expand_properties(properties: &Vec<Property>, vars: &MessageVariables) -> (out: Vec<
    Property,
>)
    ensures
        property_views(out@) == expanded_properties(property_views(properties@), vars@),
{
    let ghost given = property_views(properties@);
    let mut out: Vec<Property> = Vec::new();
    let mut i: usize = 0;
    while i < properties.len()
        invariant
            i <= properties.len(),
            given == property_views(properties@),
            property_views(out@) == expanded_properties(given.take(i as int), vars@),
        decreases properties.len() - i,
    {
        let ghost before = out@;
        out.push(
            Property {
                name: properties[i].name.clone(),
                value: replace_variables(properties[i].value.as_str(), vars),
            },
        );
        assert(property_views(out@) == property_views(before).push(
            expanded_property(given[i as int], vars@),
        ));
        assert(given.take(i + 1) == given.take(i as int).push(given[i as int]));
        i += 1;
    }
    assert(given.take(i as int) == given);
    out
}

impl SelectOption {
    /// A copy of this option.
    pub fn duplicate(&self) -> (copy: SelectOption)
        ensures
            copy@ == self@,
    {
        SelectOption {
            label: self.label.clone(),
            value: self.value.clone(),
            properties: duplicate_properties(&self.properties),
        }
    }
}

impl MessageComponent {
    /// A copy of this component.
    pub fn duplicate(&self) -> (copy: MessageComponent)
        ensures
            copy@ == self@,
    {
        let mut options: Vec<SelectOption> = Vec::new();
        let mut i: usize = 0;
        while i < self.options.len()
            invariant
                i <= self.options.len(),
                options@.map_values(|o: SelectOption| o@) == self@.options.take(i as int),
            decreases self.options.len() - i,
        {
            let ghost before = options@;
            options.push(self.options[i].duplicate());
            assert(options@.map_values(|o: SelectOption| o@) == before.map_values(
                |o: SelectOption| o@,
            ).push(self.options[i as int]@));
            assert(self@.options.take(i + 1) == self@.options.take(i as int).push(
                self@.options[i as int],
            ));
            i += 1;
        }
        assert(self@.options.take(i as int) == self@.options);
        MessageComponent {
            kind: self.kind,
            label: self.label.clone(),
            custom_id: self.custom_id.clone(),
            options,
            properties: duplicate_properties(&self.properties),
        }
    }
}

impl ComponentRow {
    /// A copy of this row.
    pub fn duplicate(&self) -> (copy: ComponentRow)
        ensures
            copy@ == self@,
    {
        let mut components: Vec<MessageComponent> = Vec::new();
        let mut i: usize = 0;
        while i < self.components.len()
            invariant
                i <= self.components.len(),
                components@.map_values(|c: MessageComponent| c@) == self@.take(i as int),
            decreases self.components.len() - i,
        {
            let ghost before = components@;
            components.push(self.components[i].duplicate());
            assert(components@.map_values(|c: MessageComponent| c@) == before.map_values(
                |c: MessageComponent| c@,
            ).push(self.components[i as int]@));
            assert(self@.take(i + 1) == self@.take(i as int).push(self@[i as int]));
            i += 1;
        }
        assert(self@.take(i as int) == self@);
        ComponentRow { components }
    }
}

impl MessageEmbed {
    /// A copy of this embed.
    pub fn duplicate(&self) -> (copy: MessageEmbed)
        ensures
            copy@ == self@,
    {
        MessageEmbed {
            title: self.title.clone(),
            description: self.description.clone(),
            properties: duplicate_properties(&self.properties),
        }
    }
}

impl MessagePayload {
    /// Removes every row of interactive components.
    pub fn strip_components(&mut self)
        ensures
            final(self)@ == (PayloadView { components: Seq::empty(), ..old(self)@ }),
    {
        self.components = Vec::new();
        assert(self@.components =~= Seq::empty());
    }

    /// Expands the template placeholders of the content and of every embed.
    pub fn replace_variables(&mut self, vars: &MessageVariables)
        ensures
            final(self)@ == expanded_payload(old(self)@, vars@),
    {
        let content = replace_variables(self.content.as_str(), vars);
        let mut embeds: Vec<MessageEmbed> = Vec::new();
        let mut i: usize = 0;
        while i < self.embeds.len()
            invariant
                i <= self.embeds.len(),
                *self == *old(self),
                embeds@.map_values(|e: MessageEmbed| e@) == old(self)@.embeds.take(
                    i as int,
                ).map_values(|e: EmbedView| expanded_embed(e, vars@)),
            decreases self.embeds.len() - i,
        {
            let ghost before = embeds@;
            let embed = MessageEmbed {
                title: replace_variables(self.embeds[i].title.as_str(), vars),
                description: replace_variables(self.embeds[i].description.as_str(), vars),
                properties: expand_properties(&self.embeds[i].properties, vars),
            };
            embeds.push(embed);
            assert(embeds@.map_values(|e: MessageEmbed| e@) == before.map_values(
                |e: MessageEmbed| e@,
            ).push(expanded_embed(self.embeds[i as int]@, vars@)));
            assert(old(self)@.embeds.take(i + 1) == old(self)@.embeds.take(i as int).push(
                self.embeds[i as int]@,
            ));
            i += 1;
        }
        assert(old(self)@.embeds.take(i as int) == old(self)@.embeds);
        self.content = content;
        self.embeds = embeds;
    }
}

} // verus!
