//! The integrity digest of a payload: a canonical, length-framed encoding of
//! its content, embeds and components. Two payloads have the same digest
//! exactly when they agree on all three.

use vstd::prelude::*;
use crate::payload::{
    property_views, ComponentKind, ComponentRow, ComponentView, EmbedView, MessageComponent,
    MessageEmbed, MessagePayload, OptionView, PayloadView, Property, PropertyView, SelectOption,
};
use crate::text::{digit_char, digit_of, push_char};

verus! {

/// The number of decimal digits that announce the length of a framed part.
pub open spec fn frame_width() -> nat {
    20
}

/// Ten to the power `exp`.
pub open spec fn pow10(exp: nat) -> nat
    decreases exp,
{
    if exp == 0 {
        1
    } else {
        10 * pow10((exp - 1) as nat)
    }
}

/// The last `width` decimal digits of `n`, most significant first, with
/// leading zeros.
pub open spec fn fixed_decimal(n: nat, width: nat) -> Seq<char>
    decreases width,
{
    if width == 0 {
        Seq::empty()
    } else {
        fixed_decimal(n / 10, (width - 1) as nat).push(digit_char(n % 10))
    }
}

/// The framing of a list of parts: each part is preceded by its length in
/// `frame_width()` decimal digits.
pub open spec fn frame(parts: Seq<Seq<char>>) -> Seq<char>
    decreases parts.len(),
{
    if parts.len() == 0 {
        Seq::empty()
    } else {
        fixed_decimal(parts[0].len(), frame_width()) + parts[0] + frame(parts.skip(1))
    }
}

/// Whether the length of every part can be written in `frame_width()`
/// digits.
pub open spec fn framable(parts: Seq<Seq<char>>) -> bool {
    forall|i: int| 0 <= i < parts.len() ==> (#[trigger] parts[i]).len() < pow10(frame_width())
}

/// The digest of one property.
pub open spec fn property_digest(property: PropertyView) -> Seq<char> {
    frame(seq![property.name, property.value])
}

/// The digest of a list of properties.
pub open spec fn properties_digest(properties: Seq<PropertyView>) -> Seq<char> {
    frame(properties.map_values(|p: PropertyView| property_digest(p)))
}

/// The parts of the digest of one embed.
pub open spec fn embed_parts(embed: EmbedView) -> Seq<Seq<char>> {
    seq![embed.title, embed.description, properties_digest(embed.properties)]
}

/// The digest of one embed.
pub open spec fn embed_digest(embed: EmbedView) -> Seq<char> {
    frame(embed_parts(embed))
}

/// The letter that stands for a kind of component in a digest.
pub open spec fn kind_text(kind: ComponentKind) -> Seq<char> {
    match kind {
        ComponentKind::Button => seq!['b'],
        ComponentKind::SelectMenu => seq!['s'],
        ComponentKind::Other => seq!['o'],
    }
}

/// The parts of the digest of one option of a select menu.
pub open spec fn option_parts(option: OptionView) -> Seq<Seq<char>> {
    seq![option.label, option.value, properties_digest(option.properties)]
}

/// The digest of one option of a select menu.
pub open spec fn option_digest(option: OptionView) -> Seq<char> {
    frame(option_parts(option))
}

/// The digest of the options of a select menu.
pub open spec fn options_digest(options: Seq<OptionView>) -> Seq<char> {
    frame(options.map_values(|o: OptionView| option_digest(o)))
}

/// The parts of the digest of one component.
pub open spec fn component_parts(component: ComponentView) -> Seq<Seq<char>> {
    seq![
        kind_text(component.kind),
        component.label,
        component.custom_id,
        options_digest(component.options),
        properties_digest(component.properties),
    ]
}

/// The digest of one component.
pub open spec fn component_digest(component: ComponentView) -> Seq<char> {
    frame(component_parts(component))
}

/// The digest of one row of components.
pub open spec fn row_digest(row: Seq<ComponentView>) -> Seq<char> {
    frame(row.map_values(|c: ComponentView| component_digest(c)))
}

/// The digest of a sequence of embeds.
pub open spec fn embeds_digest(embeds: Seq<EmbedView>) -> Seq<char> {
    frame(embeds.map_values(|e: EmbedView| embed_digest(e)))
}

/// The digest of a sequence of component rows.
pub open spec fn rows_digest(rows: Seq<Seq<ComponentView>>) -> Seq<char> {
    frame(rows.map_values(|r: Seq<ComponentView>| row_digest(r)))
}

/// The integrity digest of a message: a function of its content, embeds and
/// components alone.
pub open spec fn digest(
    content: Seq<char>,
    embeds: Seq<EmbedView>,
    components: Seq<Seq<ComponentView>>,
) -> Seq<char> {
    frame(seq![content, embeds_digest(embeds), rows_digest(components)])
}

/// The integrity digest of a payload. Attachments take no part in it.
pub open spec fn payload_digest(payload: PayloadView) -> Seq<char> {
    digest(payload.content, payload.embeds, payload.components)
}

/// Whether every part that the digest of `payload` frames, at every level,
/// has a length that the frame can announce. Every payload that fits in
/// memory is of this kind.
pub open spec fn hashable(payload: PayloadView) -> bool {
    &&& framable(
        seq![payload.content, embeds_digest(payload.embeds), rows_digest(payload.components)],
    )
    &&& framable(payload.embeds.map_values(|e: EmbedView| embed_digest(e)))
    &&& forall|i: int| 0 <= i < payload.embeds.len() ==> hashable_embed(#[trigger] payload.embeds[i])
    &&& framable(payload.components.map_values(|r: Seq<ComponentView>| row_digest(r)))
    &&& forall|i: int|
        0 <= i < payload.components.len() ==> hashable_row(#[trigger] payload.components[i])
}

/// Whether every part that the digest of `properties` frames has a length
/// that the frame can announce.
pub open spec fn hashable_properties(properties: Seq<PropertyView>) -> bool {
    &&& framable(properties.map_values(|p: PropertyView| property_digest(p)))
    &&& forall|i: int|
        0 <= i < properties.len() ==> framable(
            seq![(#[trigger] properties[i]).name, properties[i].value],
        )
}

/// Whether every part that the digest of `embed` frames has a length that
/// the frame can announce.
pub open spec fn hashable_embed(embed: EmbedView) -> bool {
    framable(embed_parts(embed)) && hashable_properties(embed.properties)
}

/// Whether every part that the digest of `option` frames has a length that
/// the frame can announce.
pub open spec fn hashable_option(option: OptionView) -> bool {
    framable(option_parts(option)) && hashable_properties(option.properties)
}

/// Whether every part that the digest of `component` frames has a length
/// that the frame can announce.
pub open spec fn hashable_component(component: ComponentView) -> bool {
    &&& framable(component_parts(component))
    &&& hashable_properties(component.properties)
    &&& framable(component.options.map_values(|o: OptionView| option_digest(o)))
    &&& forall|i: int|
        0 <= i < component.options.len() ==> hashable_option(#[trigger] component.options[i])
}

/// Whether every part that the digest of `row` frames has a length that the
/// frame can announce.
pub open spec fn hashable_row(row: Seq<ComponentView>) -> bool {
    &&& framable(row.map_values(|c: ComponentView| component_digest(c)))
    &&& forall|i: int| 0 <= i < row.len() ==> hashable_component(#[trigger] row[i])
}

/// A fixed-width numeral has exactly `width` digits.
pub proof fn lemma_fixed_decimal_len(n: nat, width: nat)
    ensures
        fixed_decimal(n, width).len() == width,
    decreases width,
{
    if width > 0 {
        lemma_fixed_decimal_len(n / 10, (width - 1) as nat);
    }
}

/// Numbers below `10^width` with the same fixed-width numeral are equal.
pub proof fn lemma_fixed_decimal_injective(a: nat, b: nat, width: nat)
    requires
        a < pow10(width),
        b < pow10(width),
        fixed_decimal(a, width) == fixed_decimal(b, width),
    ensures
        a == b,
    decreases width,
{
    if width > 0 {
        let rest = (width - 1) as nat;
        let fa = fixed_decimal(a / 10, rest);
        let fb = fixed_decimal(b / 10, rest);
        lemma_fixed_decimal_len(a / 10, rest);
        lemma_fixed_decimal_len(b / 10, rest);
        assert(fixed_decimal(a, width).last() == digit_char(a % 10));
        assert(fixed_decimal(b, width).last() == digit_char(b % 10));
        assert(a % 10 == b % 10);
        assert(fixed_decimal(a, width).drop_last() == fa);
        assert(fixed_decimal(b, width).drop_last() == fb);
        lemma_fixed_decimal_injective(a / 10, b / 10, rest);
    }
}

/// Lists of parts with the same framing are equal.
pub proof fn lemma_frame_injective(p: Seq<Seq<char>>, q: Seq<Seq<char>>)
    requires
        framable(p),
        framable(q),
        frame(p) == frame(q),
    ensures
        p == q,
    decreases p.len(),
{
    let w = frame_width() as int;
    if p.len() == 0 {
        if q.len() > 0 {
            lemma_fixed_decimal_len(q[0].len(), frame_width());
            assert(frame(q).len() >= w);
        }
        assert(p =~= q);
    } else if q.len() == 0 {
        lemma_fixed_decimal_len(p[0].len(), frame_width());
        assert(frame(p).len() >= w);
    } else {
        let hp = fixed_decimal(p[0].len(), frame_width());
        let hq = fixed_decimal(q[0].len(), frame_width());
        lemma_fixed_decimal_len(p[0].len(), frame_width());
        lemma_fixed_decimal_len(q[0].len(), frame_width());
        let f = frame(p);
        assert(f.subrange(0, w) == hp);
        assert(frame(q).subrange(0, w) == hq);
        lemma_fixed_decimal_injective(p[0].len(), q[0].len(), frame_width());
        let l = p[0].len() as int;
        assert(f.subrange(w, w + l) == p[0]);
        assert(frame(q).subrange(w, w + l) == q[0]);
        assert(f.skip(w + l) == frame(p.skip(1)));
        assert(frame(q).skip(w + l) == frame(q.skip(1)));
        lemma_frame_injective(p.skip(1), q.skip(1));
        assert(p =~= seq![p[0]] + p.skip(1));
        assert(q =~= seq![q[0]] + q.skip(1));
    }
}

/// Lists of properties with the same digest are equal.
pub proof fn lemma_properties_digest_injective(a: Seq<PropertyView>, b: Seq<PropertyView>)
    requires
        hashable_properties(a),
        hashable_properties(b),
        properties_digest(a) == properties_digest(b),
    ensures
        a == b,
{
    let da = a.map_values(|p: PropertyView| property_digest(p));
    let db = b.map_values(|p: PropertyView| property_digest(p));
    lemma_frame_injective(da, db);
    assert(a.len() == b.len());
    assert forall|i: int| 0 <= i < a.len() implies a[i] == b[i] by {
        assert(da[i] == db[i]);
        let pa = seq![a[i].name, a[i].value];
        let pb = seq![b[i].name, b[i].value];
        lemma_frame_injective(pa, pb);
        assert(pa[0] == pb[0]);
        assert(pa[1] == pb[1]);
    }
    assert(a =~= b);
}

/// Embeds with the same digest are equal.
pub proof fn lemma_embed_digest_injective(a: EmbedView, b: EmbedView)
    requires
        hashable_embed(a),
        hashable_embed(b),
        embed_digest(a) == embed_digest(b),
    ensures
        a == b,
{
    let pa = embed_parts(a);
    let pb = embed_parts(b);
    lemma_frame_injective(pa, pb);
    assert(pa[0] == pb[0]);
    assert(pa[1] == pb[1]);
    assert(pa[2] == pb[2]);
    lemma_properties_digest_injective(a.properties, b.properties);
}

/// Options with the same digest are equal.
pub proof fn lemma_option_digest_injective(a: OptionView, b: OptionView)
    requires
        hashable_option(a),
        hashable_option(b),
        option_digest(a) == option_digest(b),
    ensures
        a == b,
{
    let pa = option_parts(a);
    let pb = option_parts(b);
    lemma_frame_injective(pa, pb);
    assert(pa[0] == pb[0]);
    assert(pa[1] == pb[1]);
    assert(pa[2] == pb[2]);
    lemma_properties_digest_injective(a.properties, b.properties);
}

/// Components with the same digest are equal.
pub proof fn lemma_component_digest_injective(a: ComponentView, b: ComponentView)
    requires
        hashable_component(a),
        hashable_component(b),
        component_digest(a) == component_digest(b),
    ensures
        a == b,
{
    let pa = component_parts(a);
    let pb = component_parts(b);
    lemma_frame_injective(pa, pb);
    assert(pa[0] == pb[0]);
    assert(pa[1] == pb[1]);
    assert(pa[2] == pb[2]);
    assert(pa[3] == pb[3]);
    assert(pa[4] == pb[4]);
    lemma_properties_digest_injective(a.properties, b.properties);
    assert(a.kind == b.kind) by {
        assert(kind_text(a.kind)[0] == kind_text(b.kind)[0]);
    }
    let oa = a.options.map_values(|o: OptionView| option_digest(o));
    let ob = b.options.map_values(|o: OptionView| option_digest(o));
    lemma_frame_injective(oa, ob);
    assert(a.options.len() == b.options.len());
    assert forall|i: int| 0 <= i < a.options.len() implies a.options[i] == b.options[i] by {
        assert(oa[i] == ob[i]);
        lemma_option_digest_injective(a.options[i], b.options[i]);
    }
    assert(a.options =~= b.options);
}

/// Rows of components with the same digest are equal.
pub proof fn lemma_row_digest_injective(a: Seq<ComponentView>, b: Seq<ComponentView>)
    requires
        hashable_row(a),
        hashable_row(b),
        row_digest(a) == row_digest(b),
    ensures
        a == b,
{
    let da = a.map_values(|c: ComponentView| component_digest(c));
    let db = b.map_values(|c: ComponentView| component_digest(c));
    lemma_frame_injective(da, db);
    assert(a.len() == b.len());
    assert forall|i: int| 0 <= i < a.len() implies a[i] == b[i] by {
        assert(da[i] == db[i]);
        lemma_component_digest_injective(a[i], b[i]);
    }
    assert(a =~= b);
}

/// Sequences of embeds with the same digest are equal.
pub proof fn lemma_embeds_digest_injective(a: Seq<EmbedView>, b: Seq<EmbedView>)
    requires
        framable(a.map_values(|e: EmbedView| embed_digest(e))),
        framable(b.map_values(|e: EmbedView| embed_digest(e))),
        forall|i: int| 0 <= i < a.len() ==> hashable_embed(#[trigger] a[i]),
        forall|i: int| 0 <= i < b.len() ==> hashable_embed(#[trigger] b[i]),
        embeds_digest(a) == embeds_digest(b),
    ensures
        a == b,
{
    let da = a.map_values(|e: EmbedView| embed_digest(e));
    let db = b.map_values(|e: EmbedView| embed_digest(e));
    lemma_frame_injective(da, db);
    assert(a.len() == b.len());
    assert forall|i: int| 0 <= i < a.len() implies a[i] == b[i] by {
        assert(da[i] == db[i]);
        lemma_embed_digest_injective(a[i], b[i]);
    }
    assert(a =~= b);
}

/// Sequences of component rows with the same digest are equal.
pub proof fn lemma_rows_digest_injective(a: Seq<Seq<ComponentView>>, b: Seq<Seq<ComponentView>>)
    requires
        framable(a.map_values(|r: Seq<ComponentView>| row_digest(r))),
        framable(b.map_values(|r: Seq<ComponentView>| row_digest(r))),
        forall|i: int| 0 <= i < a.len() ==> hashable_row(#[trigger] a[i]),
        forall|i: int| 0 <= i < b.len() ==> hashable_row(#[trigger] b[i]),
        rows_digest(a) == rows_digest(b),
    ensures
        a == b,
{
    let da = a.map_values(|r: Seq<ComponentView>| row_digest(r));
    let db = b.map_values(|r: Seq<ComponentView>| row_digest(r));
    lemma_frame_injective(da, db);
    assert(a.len() == b.len());
    assert forall|i: int| 0 <= i < a.len() implies a[i] == b[i] by {
        assert(da[i] == db[i]);
        lemma_row_digest_injective(a[i], b[i]);
    }
    assert(a =~= b);
}

/// The digest is a function of content, embeds and components, and detects
/// every change to them: two payloads have the same digest exactly when
/// they agree on all three. Attachments do not matter.
pub proof fn lemma_digest_detects_change(p: PayloadView, q: PayloadView)
    requires
        hashable(p),
        hashable(q),
    ensures
        payload_digest(p) == payload_digest(q) <==> (p.content == q.content && p.embeds
            == q.embeds && p.components == q.components),
{
    if payload_digest(p) == payload_digest(q) {
        let pp = seq![p.content, embeds_digest(p.embeds), rows_digest(p.components)];
        let qq = seq![q.content, embeds_digest(q.embeds), rows_digest(q.components)];
        lemma_frame_injective(pp, qq);
        assert(pp[0] == qq[0]);
        assert(pp[1] == qq[1]);
        assert(pp[2] == qq[2]);
        lemma_embeds_digest_injective(p.embeds, q.embeds);
        lemma_rows_digest_injective(p.components, q.components);
    }
}

/// Every length that fits a machine word can be announced by a frame.
pub proof fn lemma_word_fits_frame(n: nat)
    requires
        n <= u64::MAX,
    ensures
        n < pow10(frame_width()),
{
    reveal_with_fuel(pow10, 21);
}

/// Appends the last `width` decimal digits of `n` to `out`.
fn push_fixed_decimal(out: &mut String, n: u64, width: u32)
    ensures
        final(out)@ == old(out)@ + fixed_decimal(n as nat, width as nat),
    decreases width,
{
    if width > 0 {
        push_fixed_decimal(out, n / 10, width - 1);
        push_char(out, digit_of(n % 10));
    }
}

/// Frames a list of parts.
pub fn frame_parts(parts: &Vec<String>) -> (out: String)
    ensures
        out@ == frame(parts@.map_values(|s: String| s@)),
        framable(parts@.map_values(|s: String| s@)),
{
    let ghost views = parts@.map_values(|s: String| s@);
    let mut out = String::new();
    let mut i: usize = 0;
    assert(views.skip(0) == views);
    while i < parts.len()
        invariant
            i <= parts.len(),
            views == parts@.map_values(|s: String| s@),
            out@ + frame(views.skip(i as int)) == frame(views),
            forall|j: int| 0 <= j < i ==> (#[trigger] views[j]).len() < pow10(frame_width()),
        decreases parts.len() - i,
    {
        let ghost before = out@;
        let part = parts[i].as_str();
        let len = part.unicode_len();
        proof {
            lemma_word_fits_frame(len as nat);
            assert(views.skip(i as int)[0] == part@);
            assert(views.skip(i as int).skip(1) == views.skip(i + 1));
        }
        push_fixed_decimal(&mut out, len as u64, 20);
        out.append(part);
        assert(out@ + frame(views.skip(i + 1)) == before + (fixed_decimal(
            part@.len(),
            frame_width(),
        ) + part@ + frame(views.skip(i + 1))));
        i += 1;
    }
    out
}

/// The digest of a list of properties.
pub fn digest_properties(properties: &Vec<Property>) -> (out: String)
    ensures
        out@ == properties_digest(property_views(properties@)),
        hashable_properties(property_views(properties@)),
{
    let ghost views = property_views(properties@);
    let mut parts: Vec<String> = Vec::new();
    let mut i: usize = 0;
    while i < properties.len()
        invariant
            i <= properties.len(),
            views == property_views(properties@),
            parts@.map_values(|s: String| s@) == views.take(i as int).map_values(
                |p: PropertyView| property_digest(p),
            ),
            forall|j: int|
                0 <= j < i ==> framable(seq![(#[trigger] views[j]).name, views[j].value]),
        decreases properties.len() - i,
    {
        let ghost before = parts@;
        let mut pair: Vec<String> = Vec::new();
        pair.push(properties[i].name.clone());
        pair.push(properties[i].value.clone());
        assert(pair@.map_values(|s: String| s@) == seq![views[i as int].name, views[i as int].value]);
        let part = frame_parts(&pair);
        parts.push(part);
        assert(parts@.map_values(|s: String| s@) == before.map_values(|s: String| s@).push(
            property_digest(views[i as int]),
        ));
        assert(views.take(i + 1) == views.take(i as int).push(views[i as int]));
        i += 1;
    }
    assert(views.take(i as int) == views);
    frame_parts(&parts)
}

impl MessageEmbed {
    /// The digest of this embed.
    pub fn digest(&self) -> (out: String)
        ensures
            out@ == embed_digest(self@),
            hashable_embed(self@),
    {
        let mut parts: Vec<String> = Vec::new();
        parts.push(self.title.clone());
        parts.push(self.description.clone());
        parts.push(digest_properties(&self.properties));
        assert(parts@.map_values(|s: String| s@) == embed_parts(self@));
        frame_parts(&parts)
    }
}

impl SelectOption {
    /// The digest of this option.
    pub fn digest(&self) -> (out: String)
        ensures
            out@ == option_digest(self@),
            hashable_option(self@),
    {
        let mut parts: Vec<String> = Vec::new();
        parts.push(self.label.clone());
        parts.push(self.value.clone());
        parts.push(digest_properties(&self.properties));
        assert(parts@.map_values(|s: String| s@) == option_parts(self@));
        frame_parts(&parts)
    }
}

impl MessageComponent {
    /// The digest of this component.
    pub fn digest(&self) -> (out: String)
        ensures
            out@ == component_digest(self@),
            hashable_component(self@),
    {
        let mut option_parts: Vec<String> = Vec::new();
        let mut i: usize = 0;
        while i < self.options.len()
            invariant
                i <= self.options.len(),
                option_parts@.map_values(|s: String| s@) == self@.options.take(
                    i as int,
                ).map_values(|o: OptionView| option_digest(o)),
                forall|j: int| 0 <= j < i ==> hashable_option(#[trigger] self@.options[j]),
            decreases self.options.len() - i,
        {
            let ghost before = option_parts@;
            let part = self.options[i].digest();
            option_parts.push(part);
            assert(option_parts@.map_values(|s: String| s@) == before.map_values(
                |s: String| s@,
            ).push(option_digest(self@.options[i as int])));
            assert(self@.options.take(i + 1) == self@.options.take(i as int).push(
                self@.options[i as int],
            ));
            i += 1;
        }
        assert(self@.options.take(i as int) == self@.options);
        let options = frame_parts(&option_parts);
        let mut kind = String::new();
        match self.kind {
            ComponentKind::Button => push_char(&mut kind, 'b'),
            ComponentKind::SelectMenu => push_char(&mut kind, 's'),
            ComponentKind::Other => push_char(&mut kind, 'o'),
        }
        let mut parts: Vec<String> = Vec::new();
        parts.push(kind);
        parts.push(self.label.clone());
        parts.push(self.custom_id.clone());
        parts.push(options);
        parts.push(digest_properties(&self.properties));
        assert(parts@.map_values(|s: String| s@) == component_parts(self@));
        frame_parts(&parts)
    }
}

impl ComponentRow {
    /// The digest of this row.
    pub fn digest(&self) -> (out: String)
        ensures
            out@ == row_digest(self@),
            hashable_row(self@),
    {
        let mut parts: Vec<String> = Vec::new();
        let mut i: usize = 0;
        while i < self.components.len()
            invariant
                i <= self.components.len(),
                parts@.map_values(|s: String| s@) == self@.take(i as int).map_values(
                    |c: ComponentView| component_digest(c),
                ),
                forall|j: int| 0 <= j < i ==> hashable_component(#[trigger] self@[j]),
            decreases self.components.len() - i,
        {
            let ghost before = parts@;
            let part = self.components[i].digest();
            parts.push(part);
            assert(parts@.map_values(|s: String| s@) == before.map_values(|s: String| s@).push(
                component_digest(self@[i as int]),
            ));
            assert(self@.take(i + 1) == self@.take(i as int).push(self@[i as int]));
            i += 1;
        }
        assert(self@.take(i as int) == self@);
        frame_parts(&parts)
    }
}

impl MessagePayload {
    /// The integrity digest of this payload: a pure function of its content,
    /// embeds and components.
    pub fn integrity_hash(&self) -> (hash: String)
        ensures
            hash@ == payload_digest(self@),
            hashable(self@),
    {
        let mut embed_parts: Vec<String> = Vec::new();
        let mut i: usize = 0;
        while i < self.embeds.len()
            invariant
                i <= self.embeds.len(),
                embed_parts@.map_values(|s: String| s@) == self@.embeds.take(i as int).map_values(
                    |e: EmbedView| embed_digest(e),
                ),
                forall|j: int| 0 <= j < i ==> hashable_embed(#[trigger] self@.embeds[j]),
            decreases self.embeds.len() - i,
        {
            let ghost before = embed_parts@;
            let part = self.embeds[i].digest();
            embed_parts.push(part);
            assert(embed_parts@.map_values(|s: String| s@) == before.map_values(
                |s: String| s@,
            ).push(embed_digest(self@.embeds[i as int])));
            assert(self@.embeds.take(i + 1) == self@.embeds.take(i as int).push(
                self@.embeds[i as int],
            ));
            i += 1;
        }
        assert(self@.embeds.take(i as int) == self@.embeds);
        let embeds = frame_parts(&embed_parts);

        let mut row_parts: Vec<String> = Vec::new();
        let mut k: usize = 0;
        while k < self.components.len()
            invariant
                k <= self.components.len(),
                row_parts@.map_values(|s: String| s@) == self@.components.take(
                    k as int,
                ).map_values(|r: Seq<ComponentView>| row_digest(r)),
                forall|j: int| 0 <= j < k ==> hashable_row(#[trigger] self@.components[j]),
            decreases self.components.len() - k,
        {
            let ghost before = row_parts@;
            let part = self.components[k].digest();
            row_parts.push(part);
            assert(row_parts@.map_values(|s: String| s@) == before.map_values(
                |s: String| s@,
            ).push(row_digest(self@.components[k as int])));
            assert(self@.components.take(k + 1) == self@.components.take(k as int).push(
                self@.components[k as int],
            ));
            k += 1;
        }
        assert(self@.components.take(k as int) == self@.components);
        let rows = frame_parts(&row_parts);

        let mut parts: Vec<String> = Vec::new();
        parts.push(self.content.clone());
        parts.push(embeds);
        parts.push(rows);
        assert(parts@.map_values(|s: String| s@) == seq![
            self@.content,
            embeds_digest(self@.embeds),
            rows_digest(self@.components),
        ]);
        frame_parts(&parts)
    }
}

} // verus!
