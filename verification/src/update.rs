//! Sparse item updates.
//!
//! An update request names some attributes of an item and is silent on the
//! others. It is turned into the steps that the platform's update builder is
//! to take: one step for each attribute that the request names, none for an
//! attribute it leaves out, and a last step that makes the item public.
//! [`ItemAttributes`] says what the steps mean for an item.

use vstd::prelude::*;

verus! {

/// Who may see a published item.
#[derive(Clone, Copy, Debug, PartialEq, Eq, Structural)]
pub enum Visibility {
    Public,
    FriendsOnly,
    Private,
    Unlisted,
}

/// A sparse update of one item. Each field is there or not, independently of
/// the others; a field that is not there leaves the attribute as it is.
#[derive(Debug, PartialEq, Eq)]
pub struct UgcUpdate {
    pub title: Option<String>,
    pub description: Option<String>,
    pub change_note: Option<String>,
    pub preview_path: Option<String>,
    pub content_path: Option<String>,
    pub tags: Option<Vec<String>>,
}

/// The mathematical content of a [`UgcUpdate`].
pub struct UgcUpdateView {
    pub title: Option<Seq<char>>,
    pub description: Option<Seq<char>>,
    pub change_note: Option<Seq<char>>,
    pub preview_path: Option<Seq<char>>,
    pub content_path: Option<Seq<char>>,
    pub tags: Option<Seq<Seq<char>>>,
}

impl View for UgcUpdate {
    type V = UgcUpdateView;

    open spec fn view(&self) -> UgcUpdateView {
        UgcUpdateView {
            title: self.title.deep_view(),
            description: self.description.deep_view(),
            change_note: self.change_note.deep_view(),
            preview_path: self.preview_path.deep_view(),
            content_path: self.content_path.deep_view(),
            tags: self.tags.deep_view(),
        }
    }
}

/// One call on the platform's update builder.
#[derive(Debug, PartialEq, Eq)]
pub enum UpdateStep {
    Title(String),
    Description(String),
    PreviewPath(String),
    Tags(Vec<String>),
    ContentPath(String),
    Visibility(Visibility),
}

/// The mathematical content of an [`UpdateStep`].
pub enum UpdateStepView {
    Title(Seq<char>),
    Description(Seq<char>),
    PreviewPath(Seq<char>),
    Tags(Seq<Seq<char>>),
    ContentPath(Seq<char>),
    Visibility(Visibility),
}

/// The attribute that a step sets.
#[derive(Clone, Copy, Debug, PartialEq, Eq, Structural)]
pub enum Attribute {
    Title,
    Description,
    PreviewPath,
    Tags,
    ContentPath,
    Visibility,
}

impl UpdateStepView {
    /// The attribute that the step sets. It sets no other.
    pub open spec fn attribute(self) -> Attribute {
        match self {
            UpdateStepView::Title(_) => Attribute::Title,
            UpdateStepView::Description(_) => Attribute::Description,
            UpdateStepView::PreviewPath(_) => Attribute::PreviewPath,
            UpdateStepView::Tags(_) => Attribute::Tags,
            UpdateStepView::ContentPath(_) => Attribute::ContentPath,
            UpdateStepView::Visibility(_) => Attribute::Visibility,
        }
    }
}

impl View for UpdateStep {
    type V = UpdateStepView;

    open spec fn view(&self) -> UpdateStepView {
        match self {
            UpdateStep::Title(text) => UpdateStepView::Title(text@),
            UpdateStep::Description(text) => UpdateStepView::Description(text@),
            UpdateStep::PreviewPath(path) => UpdateStepView::PreviewPath(path@),
            UpdateStep::Tags(tags) => UpdateStepView::Tags(tags.deep_view()),
            UpdateStep::ContentPath(path) => UpdateStepView::ContentPath(path@),
            UpdateStep::Visibility(visibility) => UpdateStepView::Visibility(*visibility),
        }
    }
}

/// The contents of a list of steps.
pub open spec fn steps_view(steps: Seq<UpdateStep>) -> Seq<UpdateStepView> {
    steps.map_values(|step: UpdateStep| step@)
}

/// The step for a title, if the request has one.
pub open spec fn title_steps(title: Option<Seq<char>>) -> Seq<UpdateStepView> {
    match title {
        Some(text) => seq![UpdateStepView::Title(text)],
        None => Seq::empty(),
    }
}

/// The step for a description, if the request has one.
pub open spec fn description_steps(description: Option<Seq<char>>) -> Seq<UpdateStepView> {
    match description {
        Some(text) => seq![UpdateStepView::Description(text)],
        None => Seq::empty(),
    }
}

/// The step for a preview path, if the request has one.
pub open spec fn preview_steps(path: Option<Seq<char>>) -> Seq<UpdateStepView> {
    match path {
        Some(path) => seq![UpdateStepView::PreviewPath(path)],
        None => Seq::empty(),
    }
}

/// The step for the tags, if the request has them.
pub open spec fn tags_steps(tags: Option<Seq<Seq<char>>>) -> Seq<UpdateStepView> {
    match tags {
        Some(tags) => seq![UpdateStepView::Tags(tags)],
        None => Seq::empty(),
    }
}

/// The step for a content path, if the request has one.
pub open spec fn content_steps(path: Option<Seq<char>>) -> Seq<UpdateStepView> {
    match path {
        Some(path) => seq![UpdateStepView::ContentPath(path)],
        None => Seq::empty(),
    }
}

/// The steps that an update request stands for: title, description, preview
/// path, tags and content path, each only if the request has it, and then
/// public visibility, always. The change note is no step: it goes with the
/// submission.
pub open spec fn planned_steps(update: UgcUpdateView) -> Seq<UpdateStepView> {
    title_steps(update.title) + description_steps(update.description) + preview_steps(
        update.preview_path,
    ) + tags_steps(update.tags) + content_steps(update.content_path)
        + seq![UpdateStepView::Visibility(Visibility::Public)]
}

/// Turns an update request into the steps for the update builder and the
/// change note for the submission.
pub fn update_steps(details: UgcUpdate) -> (plan: (Vec<UpdateStep>, Option<String>))
    ensures
        steps_view(plan.0@) == planned_steps(details@),
        plan.1.deep_view() == details@.change_note,
{
    let UgcUpdate { title, description, change_note, preview_path, content_path, tags } = details;
    let mut steps: Vec<UpdateStep> = Vec::new();
    assert(steps_view(steps@) =~= Seq::<UpdateStepView>::empty());
    if let Some(text) = title {
        steps.push(UpdateStep::Title(text));
    }
    assert(steps_view(steps@) =~= title_steps(details@.title));
    let ghost after_title = steps@;
    if let Some(text) = description {
        steps.push(UpdateStep::Description(text));
    }
    assert(steps_view(steps@) =~= steps_view(after_title) + description_steps(
        details@.description,
    ));
    let ghost after_description = steps@;
    if let Some(path) = preview_path {
        steps.push(UpdateStep::PreviewPath(path));
    }
    assert(steps_view(steps@) =~= steps_view(after_description) + preview_steps(
        details@.preview_path,
    ));
    let ghost after_preview = steps@;
    if let Some(list) = tags {
        steps.push(UpdateStep::Tags(list));
    }
    assert(steps_view(steps@) =~= steps_view(after_preview) + tags_steps(details@.tags));
    let ghost after_tags = steps@;
    if let Some(path) = content_path {
        steps.push(UpdateStep::ContentPath(path));
    }
    assert(steps_view(steps@) =~= steps_view(after_tags) + content_steps(details@.content_path));
    let ghost after_content = steps@;
    steps.push(UpdateStep::Visibility(Visibility::Public));
    assert(steps_view(steps@) =~= steps_view(after_content)
        + seq![UpdateStepView::Visibility(Visibility::Public)]);
    (steps, change_note)
}

/// The attributes of a published item that an update can set.
#[derive(Debug, PartialEq, Eq)]
pub struct ItemAttributes {
    pub title: String,
    pub description: String,
    pub preview_path: String,
    pub content_path: String,
    pub tags: Vec<String>,
    pub visibility: Visibility,
}

/// The mathematical content of [`ItemAttributes`].
pub struct ItemAttributesView {
    pub title: Seq<char>,
    pub description: Seq<char>,
    pub preview_path: Seq<char>,
    pub content_path: Seq<char>,
    pub tags: Seq<Seq<char>>,
    pub visibility: Visibility,
}

impl View for ItemAttributes {
    type V = ItemAttributesView;

    open spec fn view(&self) -> ItemAttributesView {
        ItemAttributesView {
            title: self.title@,
            description: self.description@,
            preview_path: self.preview_path@,
            content_path: self.content_path@,
            tags: self.tags.deep_view(),
            visibility: self.visibility,
        }
    }
}

impl ItemAttributesView {
    /// The attributes after one step: the attribute that the step names has
    /// the step's value, every other attribute is what it was.
    pub open spec fn apply(self, step: UpdateStepView) -> ItemAttributesView {
        match step {
            UpdateStepView::Title(text) => ItemAttributesView { title: text, ..self },
            UpdateStepView::Description(text) => ItemAttributesView { description: text, ..self },
            UpdateStepView::PreviewPath(path) => ItemAttributesView { preview_path: path, ..self },
            UpdateStepView::Tags(tags) => ItemAttributesView { tags: tags, ..self },
            UpdateStepView::ContentPath(path) => ItemAttributesView { content_path: path, ..self },
            UpdateStepView::Visibility(visibility) => ItemAttributesView {
                visibility: visibility,
                ..self
            },
        }
    }

    /// The step that would set an attribute to the value it has.
    pub open spec fn field(self, attribute: Attribute) -> UpdateStepView {
        match attribute {
            Attribute::Title => UpdateStepView::Title(self.title),
            Attribute::Description => UpdateStepView::Description(self.description),
            Attribute::PreviewPath => UpdateStepView::PreviewPath(self.preview_path),
            Attribute::Tags => UpdateStepView::Tags(self.tags),
            Attribute::ContentPath => UpdateStepView::ContentPath(self.content_path),
            Attribute::Visibility => UpdateStepView::Visibility(self.visibility),
        }
    }

    /// The attributes after a list of steps, taken in order.
    pub open spec fn apply_all(self, steps: Seq<UpdateStepView>) -> ItemAttributesView
        decreases steps.len(),
    {
        if steps.len() == 0 {
            self
        } else {
            self.apply(steps[0]).apply_all(steps.drop_first())
        }
    }

    /// The attributes after an update request has gone through: each
    /// attribute that the request names has the request's value, each
    /// attribute that it leaves out is what it was, and the item is public.
    pub open spec fn updated(self, update: UgcUpdateView) -> ItemAttributesView {
        ItemAttributesView {
            title: match update.title {
                Some(text) => text,
                None => self.title,
            },
            description: match update.description {
                Some(text) => text,
                None => self.description,
            },
            preview_path: match update.preview_path {
                Some(path) => path,
                None => self.preview_path,
            },
            content_path: match update.content_path {
                Some(path) => path,
                None => self.content_path,
            },
            tags: match update.tags {
                Some(tags) => tags,
                None => self.tags,
            },
            visibility: Visibility::Public,
        }
    }
}

/// Copies a list of strings.
pub fn clone_strings(list: &Vec<String>) -> (copy: Vec<String>)
    ensures
        copy@ == list@,
        copy.deep_view() == list.deep_view(),
{
    let mut copy: Vec<String> = Vec::new();
    let mut i: usize = 0;
    while i < list.len()
        invariant
            i <= list.len(),
            copy@ == list@.subrange(0, i as int),
        decreases list.len() - i,
    {
        copy.push(list[i].clone());
        i += 1;
        assert(copy@ =~= list@.subrange(0, i as int));
    }
    assert(copy@ =~= list@);
    copy
}

impl ItemAttributes {
    /// Takes one step of an update.
    pub fn apply(&mut self, step: &UpdateStep)
        ensures
            final(self)@ == old(self)@.apply(step@),
    {
        match step {
            UpdateStep::Title(text) => {
                self.title = text.clone();
            },
            UpdateStep::Description(text) => {
                self.description = text.clone();
            },
            UpdateStep::PreviewPath(path) => {
                self.preview_path = path.clone();
            },
            UpdateStep::Tags(tags) => {
                self.tags = clone_strings(tags);
            },
            UpdateStep::ContentPath(path) => {
                self.content_path = path.clone();
            },
            UpdateStep::Visibility(visibility) => {
                self.visibility = *visibility;
            },
        }
    }

    /// Takes the steps of an update, in order.
    pub fn apply_all(&mut self, steps: &Vec<UpdateStep>)
        ensures
            final(self)@ == old(self)@.apply_all(steps_view(steps@)),
    {
        let ghost all = steps_view(steps@);
        let mut i: usize = 0;
        assert(all.subrange(0, all.len() as int) =~= all);
        while i < steps.len()
            invariant
                i <= steps.len(),
                all == steps_view(steps@),
                self@.apply_all(all.subrange(i as int, all.len() as int)) == old(self)@.apply_all(
                    all,
                ),
            decreases steps.len() - i,
        {
            proof {
                let rest = all.subrange(i as int, all.len() as int);
                assert(rest[0] == steps@[i as int]@);
                assert(rest.drop_first() =~= all.subrange(i + 1, all.len() as int));
            }
            self.apply(&steps[i]);
            i += 1;
        }
        assert(all.subrange(i as int, all.len() as int) =~= Seq::<UpdateStepView>::empty());
    }
}

/// Taking the steps of `first` and then those of `second` is taking the
/// steps of both in a row.
pub proof fn lemma_apply_all_concat(
    base: ItemAttributesView,
    first: Seq<UpdateStepView>,
    second: Seq<UpdateStepView>,
)
    ensures
        base.apply_all(first + second) == base.apply_all(first).apply_all(second),
    decreases first.len(),
{
    if first.len() == 0 {
        assert(first + second =~= second);
    } else {
        assert((first + second)[0] == first[0]);
        assert((first + second).drop_first() =~= first.drop_first() + second);
        lemma_apply_all_concat(base.apply(first[0]), first.drop_first(), second);
    }
}

/// Taking a list of one step is taking the step; taking none changes nothing.
pub proof fn lemma_apply_all_short(base: ItemAttributesView, step: UpdateStepView)
    ensures
        base.apply_all(seq![step]) == base.apply(step),
        base.apply_all(Seq::empty()) == base,
{
    assert(seq![step].drop_first() =~= Seq::<UpdateStepView>::empty());
    assert(base.apply(step).apply_all(Seq::empty()) == base.apply(step));
}

/// **Sparse update.** The steps planned for a request change exactly what
/// the request names: an attribute that the request has takes the request's
/// value, an attribute that it leaves out keeps the value it had, whatever
/// that was, and the item becomes public.
pub proof fn law_sparse_update(base: ItemAttributesView, update: UgcUpdateView)
    ensures
        base.apply_all(planned_steps(update)) == base.updated(update),
{
    let s1 = title_steps(update.title);
    let s2 = description_steps(update.description);
    let s3 = preview_steps(update.preview_path);
    let s4 = tags_steps(update.tags);
    let s5 = content_steps(update.content_path);
    let s6 = seq![UpdateStepView::Visibility(Visibility::Public)];
    let a1 = base.apply_all(s1);
    let a2 = a1.apply_all(s2);
    let a3 = a2.apply_all(s3);
    let a4 = a3.apply_all(s4);
    let a5 = a4.apply_all(s5);
    lemma_apply_all_concat(base, s1, s2);
    lemma_apply_all_concat(base, s1 + s2, s3);
    lemma_apply_all_concat(base, s1 + s2 + s3, s4);
    lemma_apply_all_concat(base, s1 + s2 + s3 + s4, s5);
    lemma_apply_all_concat(base, s1 + s2 + s3 + s4 + s5, s6);
    if update.title is Some {
        lemma_apply_all_short(base, s1[0]);
    }
    if update.description is Some {
        lemma_apply_all_short(a1, s2[0]);
    }
    if update.preview_path is Some {
        lemma_apply_all_short(a2, s3[0]);
    }
    if update.tags is Some {
        lemma_apply_all_short(a3, s4[0]);
    }
    if update.content_path is Some {
        lemma_apply_all_short(a4, s5[0]);
    }
    lemma_apply_all_short(a5, s6[0]);
}

/// **Non-interference.** A step leaves every attribute but its own as it
/// found it.
pub proof fn law_step_sets_one_attribute(base: ItemAttributesView, step: UpdateStepView)
    ensures
        step.attribute() != Attribute::Title ==> base.apply(step).title == base.title,
        step.attribute() != Attribute::Description ==> base.apply(step).description
            == base.description,
        step.attribute() != Attribute::PreviewPath ==> base.apply(step).preview_path
            == base.preview_path,
        step.attribute() != Attribute::Tags ==> base.apply(step).tags == base.tags,
        step.attribute() != Attribute::ContentPath ==> base.apply(step).content_path
            == base.content_path,
        step.attribute() != Attribute::Visibility ==> base.apply(step).visibility
            == base.visibility,
{
}

/// Two steps that set different attributes can be taken in either order.
pub proof fn law_steps_commute(
    base: ItemAttributesView,
    first: UpdateStepView,
    second: UpdateStepView,
)
    requires
        first.attribute() != second.attribute(),
    ensures
        base.apply(first).apply(second) == base.apply(second).apply(first),
{
}

/// No two steps of the list set the same attribute.
pub open spec fn distinct_attributes(steps: Seq<UpdateStepView>) -> bool {
    forall|i: int, j: int|
        0 <= i < j < steps.len() ==> (#[trigger] steps[i]).attribute() != (
        #[trigger] steps[j]).attribute()
}

/// The two lists hold the same steps, in whatever order.
pub open spec fn same_steps(one: Seq<UpdateStepView>, other: Seq<UpdateStepView>) -> bool {
    forall|step: UpdateStepView| one.contains(step) <==> other.contains(step)
}

/// Steps that do not name an attribute leave it as it was.
proof fn lemma_attribute_untouched(
    base: ItemAttributesView,
    steps: Seq<UpdateStepView>,
    attribute: Attribute,
)
    requires
        forall|k: int| 0 <= k < steps.len() ==> (#[trigger] steps[k]).attribute() != attribute,
    ensures
        base.apply_all(steps).field(attribute) == base.field(attribute),
    decreases steps.len(),
{
    if steps.len() > 0 {
        let rest = steps.drop_first();
        assert(steps[0].attribute() != attribute);
        assert forall|k: int| 0 <= k < rest.len() implies (#[trigger] rest[k]).attribute()
            != attribute by {
            assert(rest[k] == steps[k + 1]);
        }
        lemma_attribute_untouched(base.apply(steps[0]), rest, attribute);
    }
}

/// Among steps that set no attribute twice, each step decides its attribute,
/// wherever in the list it stands.
proof fn lemma_attribute_set(
    base: ItemAttributesView,
    steps: Seq<UpdateStepView>,
    step: UpdateStepView,
)
    requires
        distinct_attributes(steps),
        steps.contains(step),
    ensures
        base.apply_all(steps).field(step.attribute()) == step,
    decreases steps.len(),
{
    let rest = steps.drop_first();
    let at = choose|k: int| 0 <= k < steps.len() && steps[k] == step;
    assert forall|i: int, j: int| 0 <= i < j < rest.len() implies (#[trigger] rest[i]).attribute()
        != (#[trigger] rest[j]).attribute() by {
        assert(rest[i] == steps[i + 1] && rest[j] == steps[j + 1]);
    }
    if at == 0 {
        assert forall|k: int| 0 <= k < rest.len() implies (#[trigger] rest[k]).attribute()
            != step.attribute() by {
            assert(rest[k] == steps[k + 1]);
        }
        lemma_attribute_untouched(base.apply(step), rest, step.attribute());
    } else {
        assert(rest[at - 1] == step);
        lemma_attribute_set(base.apply(steps[0]), rest, step);
    }
}

/// **Order independence.** Steps that set no attribute twice can be taken in
/// any order: two lists of the same such steps leave an item with the same
/// attributes.
pub proof fn law_order_independence(
    base: ItemAttributesView,
    steps: Seq<UpdateStepView>,
    other: Seq<UpdateStepView>,
)
    requires
        distinct_attributes(steps),
        distinct_attributes(other),
        same_steps(steps, other),
    ensures
        base.apply_all(steps) == base.apply_all(other),
{
    let one = base.apply_all(steps);
    let two = base.apply_all(other);
    assert forall|attribute: Attribute| one.field(attribute) == two.field(attribute) by {
        if exists|k: int| 0 <= k < steps.len() && (#[trigger] steps[k]).attribute() == attribute {
            let k = choose|k: int|
                0 <= k < steps.len() && (#[trigger] steps[k]).attribute() == attribute;
            assert(steps.contains(steps[k]));
            assert(other.contains(steps[k]));
            lemma_attribute_set(base, steps, steps[k]);
            lemma_attribute_set(base, other, steps[k]);
        } else {
            assert forall|k: int| 0 <= k < other.len() implies (#[trigger] other[k]).attribute()
                != attribute by {
                assert(other.contains(other[k]));
                assert(steps.contains(other[k]));
                let at = choose|i: int| 0 <= i < steps.len() && steps[i] == other[k];
                assert(steps[at].attribute() != attribute);
            }
            lemma_attribute_untouched(base, steps, attribute);
            lemma_attribute_untouched(base, other, attribute);
        }
    }
    assert(one.field(Attribute::Title) == two.field(Attribute::Title));
    assert(one.field(Attribute::Description) == two.field(Attribute::Description));
    assert(one.field(Attribute::PreviewPath) == two.field(Attribute::PreviewPath));
    assert(one.field(Attribute::Tags) == two.field(Attribute::Tags));
    assert(one.field(Attribute::ContentPath) == two.field(Attribute::ContentPath));
    assert(one.field(Attribute::Visibility) == two.field(Attribute::Visibility));
}

/// The plan for a request sets no attribute twice.
pub proof fn law_plan_names_each_attribute_once(update: UgcUpdateView)
    ensures
        distinct_attributes(planned_steps(update)),
{
    let plan = planned_steps(update);
    assert(plan.len() == title_steps(update.title).len() + description_steps(
        update.description,
    ).len() + preview_steps(update.preview_path).len() + tags_steps(update.tags).len()
        + content_steps(update.content_path).len() + 1);
}

/// **The steps of an update in any order.** However the steps planned for a
/// request are arranged, an item ends up as the request says.
pub proof fn law_plan_in_any_order(
    base: ItemAttributesView,
    update: UgcUpdateView,
    arranged: Seq<UpdateStepView>,
)
    requires
        distinct_attributes(arranged),
        same_steps(planned_steps(update), arranged),
    ensures
        base.apply_all(arranged) == base.updated(update),
{
    law_plan_names_each_attribute_once(update);
    law_order_independence(base, planned_steps(update), arranged);
    law_sparse_update(base, update);
}

} // verus!
