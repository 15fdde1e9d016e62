//! Noise suppression: which models and masks there are, what is selected, when a
//! filter is rebuilt, where its files are looked for, and how samples are cut into
//! frames. The filter itself runs in a library that the caller loads. Its numeric
//! settings are single-precision numbers, held by their bits.
use std::collections::VecDeque;

use vstd::prelude::*;

use crate::mft_setup::opt_view;
use crate::text;

verus! {

/// A model that can be selected.
#[derive(Debug, Clone, Copy, PartialEq, Eq)]
pub struct KnownDenoiseModel {
    pub id: &'static str,
    pub label: &'static str,
}

/// A mask that can be selected.
#[derive(Debug, Clone, Copy, PartialEq, Eq)]
pub struct KnownReduceMask {
    pub id: &'static str,
    pub label: &'static str,
}

/// The ids and labels of the models.
pub open spec fn models() -> Seq<(Seq<char>, Seq<char>)> {
    seq![
        ("off"@, "Без шумодава"@),
        ("DeepFilterNet3_ll_onnx.tar.gz"@, "DeepFilterNet3 ONNX Low Latency"@),
        ("DeepFilterNet3_onnx.tar.gz"@, "DeepFilterNet3 ONNX"@),
    ]
}

/// The ids and labels of the masks.
pub open spec fn masks() -> Seq<(Seq<char>, Seq<char>)> {
    seq![("none"@, "None"@), ("mean"@, "Mean"@), ("max"@, "Max"@)]
}

/// Whether the id is that of a model.
pub open spec fn known_model(id: Seq<char>) -> bool {
    id == models()[0].0 || id == models()[1].0 || id == models()[2].0
}

/// Whether the id is that of a mask.
pub open spec fn known_mask(id: Seq<char>) -> bool {
    id == masks()[0].0 || id == masks()[1].0 || id == masks()[2].0
}

/// The models that can be selected.
pub fn known_models() -> (r: Vec<KnownDenoiseModel>)
    ensures
        r@.map_values(|m: KnownDenoiseModel| (m.id@, m.label@)) == models(),
{
    let mut r: Vec<KnownDenoiseModel> = Vec::new();
    r.push(KnownDenoiseModel { id: "off", label: "Без шумодава" });
    r.push(
        KnownDenoiseModel {
            id: "DeepFilterNet3_ll_onnx.tar.gz",
            label: "DeepFilterNet3 ONNX Low Latency",
        },
    );
    r.push(
        KnownDenoiseModel { id: "DeepFilterNet3_onnx.tar.gz", label: "DeepFilterNet3 ONNX" },
    );
    assert(r@.map_values(|m: KnownDenoiseModel| (m.id@, m.label@)) =~= models());
    r
}

/// The masks that can be selected.
pub fn known_reduce_masks() -> (r: Vec<KnownReduceMask>)
    ensures
        r@.map_values(|m: KnownReduceMask| (m.id@, m.label@)) == masks(),
{
    let mut r: Vec<KnownReduceMask> = Vec::new();
    r.push(KnownReduceMask { id: "none", label: "None" });
    r.push(KnownReduceMask { id: "mean", label: "Mean" });
    r.push(KnownReduceMask { id: "max", label: "Max" });
    assert(r@.map_values(|m: KnownReduceMask| (m.id@, m.label@)) =~= masks());
    r
}

/// The model that is selected at the start.
pub fn default_model_id() -> (r: &'static str)
    ensures
        r@ == "DeepFilterNet3_onnx.tar.gz"@,
{
    "DeepFilterNet3_onnx.tar.gz"
}

/// The mask that is selected at the start.
pub fn default_reduce_mask_id() -> (r: &'static str)
    ensures
        r@ == "max"@,
{
    "max"
}

/// Whether the id is that of a model.
pub fn is_known_model(model_id: &str) -> (r: bool)
    ensures
        r == known_model(model_id@),
{
    text::same(model_id, "off") || text::same(model_id, "DeepFilterNet3_ll_onnx.tar.gz")
        || text::same(model_id, "DeepFilterNet3_onnx.tar.gz")
}

/// Whether the id is that of a mask.
pub fn is_known_reduce_mask(mask_id: &str) -> (r: bool)
    ensures
        r == known_mask(mask_id@),
{
    text::same(mask_id, "none") || text::same(mask_id, "mean") || text::same(mask_id, "max")
}

/// The label of a model, and one for models that are not known.
pub fn model_label(model_id: &str) -> (r: &'static str)
    ensures
        r@ == if model_id@ == models()[0].0 {
            models()[0].1
        } else if model_id@ == models()[1].0 {
            models()[1].1
        } else if model_id@ == models()[2].0 {
            models()[2].1
        } else {
            "DeepFilterNet model"@
        },
{
    if text::same(model_id, "off") {
        "Без шумодава"
    } else if text::same(model_id, "DeepFilterNet3_ll_onnx.tar.gz") {
        "DeepFilterNet3 ONNX Low Latency"
    } else if text::same(model_id, "DeepFilterNet3_onnx.tar.gz") {
        "DeepFilterNet3 ONNX"
    } else {
        "DeepFilterNet model"
    }
}

/// The label of a mask; that of the default for masks that are not known.
pub fn reduce_mask_label(mask_id: &str) -> (r: &'static str)
    ensures
        r@ == if mask_id@ == masks()[0].0 {
            masks()[0].1
        } else if mask_id@ == masks()[1].0 {
            masks()[1].1
        } else {
            masks()[2].1
        },
{
    if text::same(mask_id, "none") {
        "None"
    } else if text::same(mask_id, "mean") {
        "Mean"
    } else {
        "Max"
    }
}

/// The id itself where it is that of a model, else that of the default.
pub open spec fn model_or_default(id: Seq<char>) -> Seq<char> {
    if known_model(id) {
        id
    } else {
        "DeepFilterNet3_onnx.tar.gz"@
    }
}

/// The id itself where it is that of a mask, else that of the default.
pub open spec fn mask_or_default(id: Seq<char>) -> Seq<char> {
    if known_mask(id) {
        id
    } else {
        "max"@
    }
}

/// The id itself where it is that of a model, else that of the default.
pub fn normalize_model_id(model_id: &str) -> (r: String)
    ensures
        r@ == model_or_default(model_id@),
        forall|i: int|
            0 <= i < models().len() && (#[trigger] models()[i]).0 == model_id@ ==> r@ == model_id@,
        (forall|i: int| 0 <= i < models().len() ==> (#[trigger] models()[i]).0 != model_id@) ==> r@
            == "DeepFilterNet3_onnx.tar.gz"@,
{
    proof {
        offered_models_can_be_selected(0, model_id@);
        offered_models_can_be_selected(1, model_id@);
        offered_models_can_be_selected(2, model_id@);
    }
    if is_known_model(model_id) {
        model_id.to_owned()
    } else {
        default_model_id().to_owned()
    }
}

/// The id itself where it is that of a mask, else that of the default.
pub fn normalize_reduce_mask_id(mask_id: &str) -> (r: String)
    ensures
        r@ == mask_or_default(mask_id@),
        forall|i: int|
            0 <= i < masks().len() && (#[trigger] masks()[i]).0 == mask_id@ ==> r@ == mask_id@,
        (forall|i: int| 0 <= i < masks().len() ==> (#[trigger] masks()[i]).0 != mask_id@) ==> r@
            == "max"@,
{
    proof {
        offered_masks_can_be_selected(0, mask_id@);
        offered_masks_can_be_selected(1, mask_id@);
        offered_masks_can_be_selected(2, mask_id@);
    }
    if is_known_reduce_mask(mask_id) {
        mask_id.to_owned()
    } else {
        default_reduce_mask_id().to_owned()
    }
}

/// Normalised ids are known, and normalising them changes nothing.
pub proof fn normalised_ids_are_known(id: Seq<char>)
    ensures
        known_model(model_or_default(id)),
        model_or_default(model_or_default(id)) == model_or_default(id),
        known_mask(mask_or_default(id)),
        mask_or_default(mask_or_default(id)) == mask_or_default(id),
{
}

/// How the two channels' masks are reduced to one.
#[derive(Debug, Clone, Copy, PartialEq, Eq, Structural)]
pub enum ReduceMaskKind {
    NoMask,
    Mean,
    Max,
}

/// The mask that an id stands for; the default for ids that are not known.
pub open spec fn mask_of(id: Seq<char>) -> ReduceMaskKind {
    if id == "none"@ {
        ReduceMaskKind::NoMask
    } else if id == "mean"@ {
        ReduceMaskKind::Mean
    } else {
        ReduceMaskKind::Max
    }
}

/// The id of a mask.
pub open spec fn id_of(m: ReduceMaskKind) -> Seq<char> {
    match m {
        ReduceMaskKind::NoMask => "none"@,
        ReduceMaskKind::Mean => "mean"@,
        ReduceMaskKind::Max => "max"@,
    }
}

impl ReduceMaskKind {
    /// The mask that an id stands for.
    pub fn from_id(mask_id: &str) -> (r: ReduceMaskKind)
        ensures
            r == mask_of(mask_id@),
    {
        if text::same(mask_id, "none") {
            ReduceMaskKind::NoMask
        } else if text::same(mask_id, "mean") {
            ReduceMaskKind::Mean
        } else {
            ReduceMaskKind::Max
        }
    }

    /// The mask's id.
    pub fn as_id(self) -> (r: &'static str)
        ensures
            r@ == id_of(self),
    {
        match self {
            ReduceMaskKind::NoMask => "none",
            ReduceMaskKind::Mean => "mean",
            ReduceMaskKind::Max => "max",
        }
    }

    /// The mask's number in the filter's interface.
    pub fn as_c_int(self) -> (r: i32)
        ensures
            r == match self {
                ReduceMaskKind::NoMask => 0int,
                ReduceMaskKind::Max => 1,
                ReduceMaskKind::Mean => 2,
            },
    {
        match self {
            ReduceMaskKind::NoMask => 0,
            ReduceMaskKind::Max => 1,
            ReduceMaskKind::Mean => 2,
        }
    }
}

/// A mask is read back from its id.
pub proof fn mask_ids_read_back(m: ReduceMaskKind)
    ensures
        mask_of(id_of(m)) == m,
        known_mask(id_of(m)),
{
    reveal_strlit("none");
    reveal_strlit("mean");
    reveal_strlit("max");
    assert("none"@[0] != "mean"@[0]);
    assert("none"@[0] != "max"@[0]);
    assert("mean"@[1] != "max"@[1]);
}

/// What a filter is set to.
#[derive(Debug, Clone, PartialEq, Eq)]
pub struct RuntimeDenoiseConfig {
    pub model_id: String,
    pub atten_lim_db: u32,
    pub post_filter_beta: u32,
    pub min_db_thresh: u32,
    pub max_db_erb_thresh: u32,
    pub max_db_df_thresh: u32,
    pub reduce_mask: ReduceMaskKind,
}

impl RuntimeDenoiseConfig {
    /// Another configuration with the same fields.
    pub fn duplicate(&self) -> (r: RuntimeDenoiseConfig)
        ensures
            r == *self,
    {
        RuntimeDenoiseConfig {
            model_id: self.model_id.clone(),
            atten_lim_db: self.atten_lim_db,
            post_filter_beta: self.post_filter_beta,
            min_db_thresh: self.min_db_thresh,
            max_db_erb_thresh: self.max_db_erb_thresh,
            max_db_df_thresh: self.max_db_df_thresh,
            reduce_mask: self.reduce_mask,
        }
    }
}

/// What is selected, with a number that grows with every change.
#[derive(Debug)]
pub struct SelectedDenoiseState {
    pub config: RuntimeDenoiseConfig,
    pub generation: u64,
}

/// The number after `g`; zero after the largest.
pub open spec fn next_generation(g: u64) -> u64 {
    ((g + 1) % 0x1_0000_0000_0000_0000) as u64
}

/// The view of a [`SelectedDenoiseState`].
#[verifier::ext_equal]
pub struct SelectionView {
    pub model_id: Seq<char>,
    pub atten_lim_db: u32,
    pub post_filter_beta: u32,
    pub min_db_thresh: u32,
    pub max_db_erb_thresh: u32,
    pub max_db_df_thresh: u32,
    pub reduce_mask: ReduceMaskKind,
    pub generation: u64,
}

impl View for SelectedDenoiseState {
    type V = SelectionView;

    open spec fn view(&self) -> SelectionView {
        SelectionView {
            model_id: self.config.model_id@,
            atten_lim_db: self.config.atten_lim_db,
            post_filter_beta: self.config.post_filter_beta,
            min_db_thresh: self.config.min_db_thresh,
            max_db_erb_thresh: self.config.max_db_erb_thresh,
            max_db_df_thresh: self.config.max_db_df_thresh,
            reduce_mask: self.config.reduce_mask,
            generation: self.generation,
        }
    }
}

/// A setting that is asked for. Of numeric ones it is said whether they differ from
/// what is in force.
pub ghost enum Change {
    Model(Seq<char>),
    Mask(Seq<char>),
    Attenuation { value: u32, differs: bool },
    PostFilter { value: u32, differs: bool },
    Thresholds { min_db: u32, max_erb: u32, max_df: u32, differs: bool },
}

/// Whether a setting that is asked for is another than the one in force.
pub open spec fn takes_effect(v: SelectionView, c: Change) -> bool {
    match c {
        Change::Model(id) => v.model_id != model_or_default(id),
        Change::Mask(id) => v.reduce_mask != mask_of(mask_or_default(id)),
        Change::Attenuation { differs, .. } => differs,
        Change::PostFilter { differs, .. } => differs,
        Change::Thresholds { differs, .. } => differs,
    }
}

/// What is selected after a setting was asked for: where it is another one, it is in
/// force, and the number is the next; else nothing changes.
pub open spec fn after_change(v: SelectionView, c: Change) -> SelectionView {
    if !takes_effect(v, c) {
        v
    } else {
        let n = SelectionView { generation: next_generation(v.generation), ..v };
        match c {
            Change::Model(id) => SelectionView { model_id: model_or_default(id), ..n },
            Change::Mask(id) => SelectionView { reduce_mask: mask_of(mask_or_default(id)), ..n },
            Change::Attenuation { value, .. } => SelectionView { atten_lim_db: value, ..n },
            Change::PostFilter { value, .. } => SelectionView { post_filter_beta: value, ..n },
            Change::Thresholds { min_db, max_erb, max_df, .. } => SelectionView {
                min_db_thresh: min_db,
                max_db_erb_thresh: max_erb,
                max_db_df_thresh: max_df,
                ..n
            },
        }
    }
}

/// What is selected after settings were asked for one after the other.
pub open spec fn after_changes(v: SelectionView, changes: Seq<Change>) -> SelectionView
    decreases changes.len(),
{
    if changes.len() == 0 {
        v
    } else {
        after_changes(after_change(v, changes[0]), changes.drop_first())
    }
}

/// How many of the settings were other ones than those in force when they were asked
/// for.
pub open spec fn effects(v: SelectionView, changes: Seq<Change>) -> nat
    decreases changes.len(),
{
    if changes.len() == 0 {
        0
    } else {
        effects(after_change(v, changes[0]), changes.drop_first()) + if takes_effect(
            v,
            changes[0],
        ) {
            1nat
        } else {
            0nat
        }
    }
}

/// The number counts the settings that took effect, and starts again at zero after the
/// largest one; asking for what is in force changes nothing.
pub proof fn generation_counts_changes(v: SelectionView, changes: Seq<Change>)
    ensures
        after_changes(v, changes).generation == (v.generation + effects(v, changes))
            % 0x1_0000_0000_0000_0000,
        effects(v, changes) == 0 ==> after_changes(v, changes) == v,
        effects(v, changes) <= changes.len(),
    decreases changes.len(),
{
    if changes.len() > 0 {
        generation_counts_changes(after_change(v, changes[0]), changes.drop_first());
    }
}

impl SelectedDenoiseState {
    /// What is selected at the start, with the numeric settings' defaults.
    pub fn new(
        atten_lim_db: u32,
        post_filter_beta: u32,
        min_db_thresh: u32,
        max_db_erb_thresh: u32,
        max_db_df_thresh: u32,
    ) -> (r: SelectedDenoiseState)
        ensures
            r.generation == 0,
            r.config.model_id@ == "DeepFilterNet3_onnx.tar.gz"@,
            r.config.atten_lim_db == atten_lim_db,
            r.config.post_filter_beta == post_filter_beta,
            r.config.min_db_thresh == min_db_thresh,
            r.config.max_db_erb_thresh == max_db_erb_thresh,
            r.config.max_db_df_thresh == max_db_df_thresh,
            r.config.reduce_mask == mask_of("max"@),
    {
        SelectedDenoiseState {
            config: RuntimeDenoiseConfig {
                model_id: default_model_id().to_owned(),
                atten_lim_db,
                post_filter_beta,
                min_db_thresh,
                max_db_erb_thresh,
                max_db_df_thresh,
                reduce_mask: ReduceMaskKind::from_id(default_reduce_mask_id()),
            },
            generation: 0,
        }
    }

    /// The id of the selected model.
    pub fn selected_model_id(&self) -> (r: String)
        ensures
            r == self.config.model_id,
    {
        self.config.model_id.clone()
    }

    /// The number of changes so far.
    pub fn selected_model_generation(&self) -> (r: u64)
        ensures
            r == self.generation,
    {
        self.generation
    }

    /// What is selected.
    pub fn current_runtime_config(&self) -> (r: RuntimeDenoiseConfig)
        ensures
            r == self.config,
    {
        self.config.duplicate()
    }

    /// Selects a model; the default where the id is not known.
    pub fn set_selected_model(&mut self, model_id: &str)
        ensures
            final(self)@ == after_change(old(self)@, Change::Model(model_id@)),
    {
        let resolved = normalize_model_id(model_id);
        if self.config.model_id != resolved {
            self.config.model_id = resolved;
            self.generation = self.generation.wrapping_add(1);
        }
    }

    /// Selects a mask; the default where the id is not known.
    pub fn set_denoise_reduce_mask(&mut self, mask_id: &str)
        ensures
            final(self)@ == after_change(old(self)@, Change::Mask(mask_id@)),
    {
        let id = normalize_reduce_mask_id(mask_id);
        let resolved = ReduceMaskKind::from_id(id.as_str());
        if self.config.reduce_mask != resolved {
            self.config.reduce_mask = resolved;
            self.generation = self.generation.wrapping_add(1);
        }
    }

    /// Sets the limit of the attenuation where it differs from the one in force.
    pub fn set_denoise_atten_lim_db(&mut self, resolved: u32, differs: bool)
        ensures
            final(self)@ == after_change(old(self)@, Change::Attenuation { value: resolved, differs }),
    {
        if differs {
            self.config.atten_lim_db = resolved;
            self.generation = self.generation.wrapping_add(1);
        }
    }

    /// Sets the strength of the post-filter where it differs from the one in
    /// force.
    pub fn set_denoise_post_filter_beta(&mut self, resolved: u32, differs: bool)
        ensures
            final(self)@ == after_change(old(self)@, Change::PostFilter { value: resolved, differs }),
    {
        if differs {
            self.config.post_filter_beta = resolved;
            self.generation = self.generation.wrapping_add(1);
        }
    }

    /// Sets the thresholds where one of them differs from those in force.
    pub fn set_denoise_thresholds(&mut self, min_db: u32, max_erb: u32, max_df: u32, differs: bool)
        ensures
            final(self)@ == after_change(old(self)@, Change::Thresholds { min_db, max_erb, max_df, differs }),
    {
        if differs {
            self.config.min_db_thresh = min_db;
            self.config.max_db_erb_thresh = max_erb;
            self.config.max_db_df_thresh = max_df;
            self.generation = self.generation.wrapping_add(1);
        }
    }
}

/// What a text says of a switch, if it says anything.
pub open spec fn switch_of(s: Seq<char>) -> Option<bool> {
    if s == "1"@ || text::ascii_lowered(s) == text::ascii_lowered("true"@) {
        Some(true)
    } else if s == "0"@ || text::ascii_lowered(s) == text::ascii_lowered("false"@) {
        Some(false)
    } else {
        None
    }
}

/// What a text says of a switch, if it is there and says anything.
pub fn env_bool(value: Option<&str>) -> (r: Option<bool>)
    ensures
        r == match opt_view(value) {
            Some(s) => switch_of(s),
            None => None,
        },
{
    match value {
        Some(s) => {
            if text::same(s, "1") || text::eq_ignore_ascii_case(s, "true") {
                Some(true)
            } else if text::same(s, "0") || text::eq_ignore_ascii_case(s, "false") {
                Some(false)
            } else {
                None
            }
        },
        None => None,
    }
}

/// Whether a text leaves the denoising of the microphone on: unless it switches that
/// off.
pub open spec fn microphone_on(value: Option<Seq<char>>) -> bool {
    match value {
        Some(s) => switch_of(s) != Some(false),
        None => true,
    }
}

/// Whether the microphone is denoised: unless the text switches that off.
pub fn microphone_denoise_enabled(value: Option<&str>) -> (r: bool)
    ensures
        r == microphone_on(opt_view(value)),
{
    match env_bool(value) {
        Some(b) => b,
        None => true,
    }
}

/// The setting of the microphone, which is made once: the answer, when it was given.
#[derive(Debug, Clone, Copy, PartialEq, Eq, Structural)]
pub struct MicrophoneSetting {
    pub answer: Option<bool>,
}

/// The answer where an earlier one is kept.
pub open spec fn kept_answer(kept: Option<bool>, value: Option<Seq<char>>) -> bool {
    match kept {
        Some(b) => b,
        None => microphone_on(value),
    }
}

/// The answers to one question after the other, each with the text at its time.
pub open spec fn kept_answers(kept: Option<bool>, values: Seq<Option<Seq<char>>>) -> Seq<bool>
    decreases values.len(),
{
    if values.len() == 0 {
        Seq::empty()
    } else {
        let b = kept_answer(kept, values[0]);
        seq![b] + kept_answers(Some(b), values.drop_first())
    }
}

impl MicrophoneSetting {
    /// A setting that was not asked for yet.
    pub fn new() -> (r: MicrophoneSetting)
        ensures
            r.answer is None,
    {
        MicrophoneSetting { answer: None }
    }

    /// Whether the microphone is denoised: the first time as the text says, later as it
    /// was the first time.
    pub fn enabled(&mut self, value: Option<&str>) -> (r: bool)
        ensures
            r == kept_answer(old(self).answer, opt_view(value)),
            final(self).answer == Some(r),
    {
        let r: bool = match self.answer {
            Some(b) => b,
            None => microphone_denoise_enabled(value),
        };
        self.answer = Some(r);
        r
    }
}

/// The first answer is kept: every answer is what the text of the first question says,
/// whatever the text is later.
pub proof fn first_answer_is_kept(values: Seq<Option<Seq<char>>>)
    ensures
        kept_answers(None, values).len() == values.len(),
        forall|i: int|
            0 <= i < values.len() ==> #[trigger] kept_answers(None, values)[i] == microphone_on(
                values[0],
            ),
{
    if values.len() > 0 {
        let b = microphone_on(values[0]);
        let rest = kept_answers(Some(b), values.drop_first());
        answers_stay(b, values.drop_first());
        assert forall|i: int| 0 <= i < values.len() implies #[trigger] kept_answers(
            None,
            values,
        )[i] == b by {
            if i > 0 {
                assert(kept_answers(None, values)[i] == rest[i - 1]);
            }
        }
    }
}

proof fn answers_stay(b: bool, values: Seq<Option<Seq<char>>>)
    ensures
        kept_answers(Some(b), values).len() == values.len(),
        forall|i: int|
            0 <= i < values.len() ==> #[trigger] kept_answers(Some(b), values)[i] == b,
    decreases values.len(),
{
    if values.len() > 0 {
        let rest = kept_answers(Some(b), values.drop_first());
        answers_stay(b, values.drop_first());
        assert forall|i: int| 0 <= i < values.len() implies #[trigger] kept_answers(
            Some(b),
            values,
        )[i] == b by {
            if i > 0 {
                assert(kept_answers(Some(b), values)[i] == rest[i - 1]);
            }
        }
    }
}

/// Whether a model stands for no denoising.
pub fn is_denoise_disabled_model(model_id: &str) -> (r: bool)
    ensures
        r == (model_id@ == "off"@),
{
    text::same(model_id, "off")
}

/// Whether a model can be used: its file is there, or it needs none.
pub fn is_model_downloaded(model_id: &str, file_exists: bool) -> (r: bool)
    ensures
        r == (model_id@ == "off"@ || file_exists),
{
    is_denoise_disabled_model(model_id) || file_exists
}

/// The directories from the project's root to the models.
pub fn denoise_models_dir() -> (r: Vec<&'static str>)
    ensures
        r@.map_values(|s: &'static str| s@) == seq!["vendor"@, "deepfilternet"@, "models"@],
{
    let mut r: Vec<&'static str> = Vec::new();
    r.push("vendor");
    r.push("deepfilternet");
    r.push("models");
    assert(r@.map_values(|s: &'static str| s@) =~= seq!["vendor"@, "deepfilternet"@, "models"@]);
    r
}

/// What a denoiser is used for.
#[derive(Debug, Clone, Copy, PartialEq, Eq, Structural)]
pub enum Source {
    Microphone,
    /// The voice of a user.
    Voice(i64),
}

/// The name under which a denoiser is reported.
pub open spec fn source_label(s: Source) -> Seq<char> {
    match s {
        Source::Microphone => "sender-microphone"@,
        Source::Voice(id) => "receiver-user-"@ + text::decimal_int(id as int),
    }
}

/// A denoiser's state beside its filter.
#[derive(Debug)]
pub struct AudioDenoiser {
    pub label: String,
    pub config_generation: u64,
    pub runtime_config: RuntimeDenoiseConfig,
    /// Whether a filter is in use.
    pub active: bool,
}

/// What to do about a denoiser's filter.
#[derive(Debug, Clone, Copy, PartialEq, Eq, Structural)]
pub enum FilterStep {
    /// Nothing.
    Keep,
    /// Build a filter for the configuration.
    Build,
    /// Let go of the filter.
    Drop,
    /// Apply the configuration to the filter in use.
    Apply,
}

/// What to do where a filter is to be built anew: build it, unless the model
/// stands for none.
pub open spec fn rebuild_step(config: RuntimeDenoiseConfig) -> FilterStep {
    if config.model_id@ == "off"@ {
        FilterStep::Drop
    } else {
        FilterStep::Build
    }
}

impl AudioDenoiser {
    /// A denoiser of the microphone, and what to do about its filter.
    pub fn new_sender_microphone(selected: &SelectedDenoiseState) -> (r: (
        AudioDenoiser,
        FilterStep,
    ))
        ensures
            r.0.label@ == source_label(Source::Microphone),
            r.0.config_generation == selected.generation,
            r.0.runtime_config == selected.config,
            !r.0.active,
            r.1 == rebuild_step(selected.config),
    {
        AudioDenoiser::new(Source::Microphone, selected)
    }

    /// A denoiser of a user's voice, and what to do about its filter.
    pub fn new_receiver_voice(user_id: i64, selected: &SelectedDenoiseState) -> (r: (
        AudioDenoiser,
        FilterStep,
    ))
        ensures
            r.0.label@ == source_label(Source::Voice(user_id)),
            r.0.config_generation == selected.generation,
            r.0.runtime_config == selected.config,
            !r.0.active,
            r.1 == rebuild_step(selected.config),
    {
        AudioDenoiser::new(Source::Voice(user_id), selected)
    }

    fn new(source: Source, selected: &SelectedDenoiseState) -> (r: (AudioDenoiser, FilterStep))
        ensures
            r.0.label@ == source_label(source),
            r.0.config_generation == selected.generation,
            r.0.runtime_config == selected.config,
            !r.0.active,
            r.1 == rebuild_step(selected.config),
    {
        let label = match source {
            Source::Microphone => "sender-microphone".to_owned(),
            Source::Voice(id) => {
                let mut s = "receiver-user-".to_owned();
                text::push_decimal_int(&mut s, id);
                s
            },
        };
        let mut denoiser = AudioDenoiser {
            label,
            config_generation: selected.selected_model_generation(),
            runtime_config: selected.current_runtime_config(),
            active: false,
        };
        let step = denoiser.rebuild_backend();
        (denoiser, step)
    }

    /// What to do where the filter is to be built anew. Where it is let go of,
    /// none is in use.
    pub fn rebuild_backend(&mut self) -> (r: FilterStep)
        ensures
            r == rebuild_step(old(self).runtime_config),
            final(self).active == (old(self).active && r == FilterStep::Build),
            final(self).label == old(self).label,
            final(self).config_generation == old(self).config_generation,
            final(self).runtime_config == old(self).runtime_config,
    {
        if is_denoise_disabled_model(self.runtime_config.model_id.as_str()) {
            self.active = false;
            FilterStep::Drop
        } else {
            FilterStep::Build
        }
    }

    /// Notes whether the filter could be built, or went on working. Where not,
    /// none is in use.
    pub fn filter_result(&mut self, ok: bool)
        ensures
            final(self).active == ok,
            final(self).label == old(self).label,
            final(self).config_generation == old(self).config_generation,
            final(self).runtime_config == old(self).runtime_config,
    {
        self.active = ok;
    }

    /// Takes over what is selected where that changed: the filter is built anew
    /// for another model or mask; other changes are applied to the filter in use,
    /// or are the occasion to try again to build one. `tuning_changed` says
    /// whether a numeric setting differs.
    pub fn ensure_config_is_current(
        &mut self,
        selected: &SelectedDenoiseState,
        tuning_changed: bool,
    ) -> (r: FilterStep)
        ensures
            final(self).label == old(self).label,
            if selected.generation == old(self).config_generation {
                r == FilterStep::Keep && *final(self) == *old(self)
            } else {
                let before = old(self).runtime_config;
                let rebuild = selected.config.model_id@ != before.model_id@
                    || selected.config.reduce_mask != before.reduce_mask;
                &&& final(self).config_generation == selected.generation
                &&& final(self).runtime_config == selected.config
                &&& r == if rebuild {
                    rebuild_step(selected.config)
                } else if !tuning_changed {
                    FilterStep::Keep
                } else if old(self).active {
                    FilterStep::Apply
                } else if selected.config.model_id@ == "off"@ {
                    FilterStep::Keep
                } else {
                    FilterStep::Build
                }
                &&& final(self).active == (old(self).active && r != FilterStep::Drop)
            },
    {
        if selected.generation == self.config_generation {
            return FilterStep::Keep;
        }
        self.config_generation = selected.generation;
        let next = selected.current_runtime_config();
        let rebuild = next.model_id != self.runtime_config.model_id || next.reduce_mask
            != self.runtime_config.reduce_mask;
        self.runtime_config = next;
        if rebuild {
            return self.rebuild_backend();
        }
        if tuning_changed {
            if self.active {
                return FilterStep::Apply;
            }
            if !is_denoise_disabled_model(self.runtime_config.model_id.as_str()) {
                return self.rebuild_backend();
            }
        }
        FilterStep::Keep
    }
}

/// Samples on their way through a filter that takes frames of one length.
#[derive(Debug)]
pub struct FrameQueue {
    pub frame_len: usize,
    pub input_ring: VecDeque<i16>,
    pub output_ring: VecDeque<i16>,
}

impl FrameQueue {
    /// Frames are not empty.
    pub open spec fn well_formed(self) -> bool {
        self.frame_len > 0
    }

    /// A queue for frames of a length, which must not be zero.
    pub fn new(frame_len: usize) -> (r: Result<FrameQueue, String>)
        ensures
            match r {
                Ok(q) => frame_len > 0 && q.well_formed() && q.frame_len == frame_len
                    && q.input_ring@ == Seq::<i16>::empty() && q.output_ring@
                    == Seq::<i16>::empty(),
                Err(s) => frame_len == 0 && s@ == "DeepFilterNet reported frame length 0"@,
            },
    {
        if frame_len == 0 {
            return Err("DeepFilterNet reported frame length 0".to_owned());
        }
        Ok(FrameQueue { frame_len, input_ring: VecDeque::new(), output_ring: VecDeque::new() })
    }

    /// Adds samples to be filtered.
    pub fn push_samples(&mut self, samples: &Vec<i16>)
        ensures
            final(self).input_ring@ == old(self).input_ring@ + samples@,
            final(self).output_ring@ == old(self).output_ring@,
            final(self).frame_len == old(self).frame_len,
    {
        let ghost before = *self;
        let mut i: usize = 0;
        while i < samples.len()
            invariant
                i <= samples@.len(),
                self.input_ring@ =~= before.input_ring@ + samples@.take(i as int),
                self.output_ring@ == before.output_ring@,
                self.frame_len == before.frame_len,
            decreases samples@.len() - i,
        {
            self.input_ring.push_back(samples[i]);
            i += 1;
        }
        assert(samples@.take(i as int) =~= samples@);
    }

    /// Takes the next frame, where enough samples are there.
    pub fn next_frame(&mut self) -> (r: Option<Vec<i16>>)
        requires
            old(self).well_formed(),
        ensures
            final(self).frame_len == old(self).frame_len,
            final(self).output_ring@ == old(self).output_ring@,
            match r {
                Some(frame) => frame@.len() == old(self).frame_len && frame@
                    + final(self).input_ring@ == old(self).input_ring@,
                None => old(self).input_ring@.len() < old(self).frame_len
                    && final(self).input_ring@ == old(self).input_ring@,
            },
    {
        if self.input_ring.len() < self.frame_len {
            return None;
        }
        let ghost before = *self;
        let mut frame: Vec<i16> = Vec::new();
        let mut i: usize = 0;
        assert(frame@ + self.input_ring@ =~= before.input_ring@);
        while i < self.frame_len
            invariant
                i <= self.frame_len,
                self.frame_len == before.frame_len,
                self.output_ring@ == before.output_ring@,
                frame@.len() == i,
                before.input_ring@.len() >= before.frame_len,
                frame@ + self.input_ring@ == before.input_ring@,
            decreases self.frame_len - i,
        {
            let ghost rest = self.input_ring@;
            let ghost got = frame@;
            if let Some(s) = self.input_ring.pop_front() {
                frame.push(s);
                assert(frame@ + self.input_ring@ =~= got + rest);
            }
            i += 1;
        }
        Some(frame)
    }

    /// Adds the samples of a frame that was filtered.
    pub fn push_filtered(&mut self, frame: &Vec<i16>)
        ensures
            final(self).output_ring@ == old(self).output_ring@ + frame@,
            final(self).input_ring@ == old(self).input_ring@,
            final(self).frame_len == old(self).frame_len,
    {
        let ghost before = *self;
        let mut i: usize = 0;
        while i < frame.len()
            invariant
                i <= frame@.len(),
                self.output_ring@ =~= before.output_ring@ + frame@.take(i as int),
                self.input_ring@ == before.input_ring@,
                self.frame_len == before.frame_len,
            decreases frame@.len() - i,
        {
            self.output_ring.push_back(frame[i]);
            i += 1;
        }
        assert(frame@.take(i as int) =~= frame@);
    }

    /// Replaces samples by filtered ones, oldest first, as far as there are any.
    pub fn replace_samples(&mut self, samples: &mut Vec<i16>)
        ensures
            final(samples)@.len() == old(samples)@.len(),
            forall|i: int|
                0 <= i < old(samples)@.len() ==> #[trigger] final(samples)@[i] == if i < old(
                    self,
                ).output_ring@.len() {
                    old(self).output_ring@[i]
                } else {
                    old(samples)@[i]
                },
            final(self).output_ring@ == if old(samples)@.len() >= old(self).output_ring@.len() {
                Seq::empty()
            } else {
                old(self).output_ring@.skip(old(samples)@.len() as int)
            },
            final(self).input_ring@ == old(self).input_ring@,
            final(self).frame_len == old(self).frame_len,
    {
        let ghost before = *self;
        let ghost orig = samples@;
        let ghost out = self.output_ring@;
        let n: usize = samples.len();
        let mut i: usize = 0;
        assert(out.skip(0) =~= out);
        while i < n
            invariant
                i <= n,
                n == orig.len(),
                samples@.len() == n,
                out == before.output_ring@,
                self.input_ring@ == before.input_ring@,
                self.frame_len == before.frame_len,
                self.output_ring@ == if i >= out.len() {
                    Seq::empty()
                } else {
                    out.skip(i as int)
                },
                forall|k: int|
                    0 <= k < i ==> #[trigger] samples@[k] == if k < out.len() {
                        out[k]
                    } else {
                        orig[k]
                    },
                forall|k: int| i <= k < n ==> #[trigger] samples@[k] == orig[k],
            decreases n - i,
        {
            if let Some(s) = self.output_ring.pop_front() {
                samples[i] = s;
                assert(out.skip(i as int).subrange(1, out.len() - i) =~= out.skip(i + 1));
            }
            i += 1;
            assert(self.output_ring@ =~= if i >= out.len() {
                Seq::empty()
            } else {
                out.skip(i as int)
            });
        }
    }
}

/// No sample is lost or moved on its way into the filter: what was handed out in
/// frames, followed by what waits, stays what came in, when samples are added and
/// a frame is taken.
pub proof fn samples_keep_their_order(
    came: Seq<i16>,
    handed: Seq<i16>,
    waiting: Seq<i16>,
    samples: Seq<i16>,
    frame: Seq<i16>,
    left: Seq<i16>,
)
    requires
        handed + waiting == came,
        frame + left == waiting + samples,
    ensures
        (handed + frame) + left == came + samples,
{
    assert((handed + frame) + left =~= handed + (frame + left));
    assert(handed + (waiting + samples) =~= (handed + waiting) + samples);
}

/// A path that the environment names: its text, and whether a file is there.
#[derive(Debug, Clone, Copy)]
pub struct NamedPath<'a> {
    pub path: &'a str,
    pub exists: bool,
}

/// The paths under the vendor directory where the filter's library is looked for,
/// in order.
pub fn dll_candidates() -> (r: Vec<Vec<&'static str>>)
    ensures
        r@.len() == 5,
        r@[0]@.map_values(|s: &'static str| s@) == seq!["libdf.dll"@],
        r@[1]@.map_values(|s: &'static str| s@) == seq!["df.dll"@],
        r@[2]@.map_values(|s: &'static str| s@) == seq!["deepfilternet.dll"@],
        r@[3]@.map_values(|s: &'static str| s@) == seq!["DeepFilterNet.dll"@],
        r@[4]@.map_values(|s: &'static str| s@) == seq!["libdf"@, "libdf.dll"@],
{
    let a: Vec<&'static str> = vec!["libdf.dll"];
    let b: Vec<&'static str> = vec!["df.dll"];
    let c: Vec<&'static str> = vec!["deepfilternet.dll"];
    let d: Vec<&'static str> = vec!["DeepFilterNet.dll"];
    let e: Vec<&'static str> = vec!["libdf", "libdf.dll"];
    assert(a@.map_values(|s: &'static str| s@) =~= seq!["libdf.dll"@]);
    assert(b@.map_values(|s: &'static str| s@) =~= seq!["df.dll"@]);
    assert(c@.map_values(|s: &'static str| s@) =~= seq!["deepfilternet.dll"@]);
    assert(d@.map_values(|s: &'static str| s@) =~= seq!["DeepFilterNet.dll"@]);
    assert(e@.map_values(|s: &'static str| s@) =~= seq!["libdf"@, "libdf.dll"@]);
    let mut r: Vec<Vec<&'static str>> = Vec::new();
    r.push(a);
    r.push(b);
    r.push(c);
    r.push(d);
    r.push(e);
    r
}

/// The index of the first `true`, or the length.
pub open spec fn first_true(s: Seq<bool>) -> int
    decreases s.len(),
{
    if s.len() == 0 || s[0] {
        0
    } else {
        1 + first_true(s.drop_first())
    }
}

/// The first candidate whose file is there.
pub fn find_dll_in_vendor(exist: &Vec<bool>) -> (r: Option<usize>)
    ensures
        match r {
            Some(i) => i == first_true(exist@) && i < exist@.len() && exist@[i as int],
            None => first_true(exist@) == exist@.len(),
        },
{
    let mut i: usize = 0;
    assert(exist@.skip(0) =~= exist@);
    while i < exist.len()
        invariant
            i <= exist@.len(),
            first_true(exist@) == i + first_true(exist@.skip(i as int)),
        decreases exist@.len() - i,
    {
        if exist[i] {
            return Some(i);
        }
        assert(exist@.skip(i as int).drop_first() =~= exist@.skip(i + 1));
        i += 1;
    }
    None
}

/// The path of the filter's library: the one that the environment names, which
/// must be there, else the one that was found.
pub fn deepfilternet_dll_path(named: Option<NamedPath>, found: Option<&str>, vendor_dir: &str) -> (r:
    Result<String, String>)
    ensures
        match named {
            Some(n) => if n.exists {
                r is Ok && r->Ok_0@ == n.path@
            } else {
                r is Err && r->Err_0@ == "ASTRIX_DF_DLL_PATH points to a missing DLL: "@ + n.path@
            },
            None => match found {
                Some(p) => r is Ok && r->Ok_0@ == p@,
                None => r is Err && r->Err_0@
                    == "DeepFilterNet DLL not found. Set ASTRIX_DF_DLL_PATH or place libdf.dll/df.dll in "@
                    + vendor_dir@,
            },
        },
{
    match named {
        Some(n) => {
            if n.exists {
                Ok(n.path.to_owned())
            } else {
                let mut s = "ASTRIX_DF_DLL_PATH points to a missing DLL: ".to_owned();
                s.push_str(n.path);
                Err(s)
            }
        },
        None => match found {
            Some(p) => Ok(p.to_owned()),
            None => {
                let mut s =
                    "DeepFilterNet DLL not found. Set ASTRIX_DF_DLL_PATH or place libdf.dll/df.dll in ".to_owned();
                s.push_str(vendor_dir);
                Err(s)
            },
        },
    }
}

/// The path of a model: the one that the environment names, which must be there,
/// else the model's own file, else another model's that was found.
pub fn deepfilternet_model_path(
    named: Option<NamedPath>,
    own: NamedPath,
    found: Option<&str>,
    model_id: &str,
    models_dir: &str,
) -> (r: Result<String, String>)
    ensures
        match named {
            Some(n) => if n.exists {
                r is Ok && r->Ok_0@ == n.path@
            } else {
                r is Err && r->Err_0@ == "ASTRIX_DF_MODEL_PATH points to a missing model: "@
                    + n.path@
            },
            None => if own.exists {
                r is Ok && r->Ok_0@ == own.path@
            } else {
                match found {
                    Some(p) => r is Ok && r->Ok_0@ == p@,
                    None => r is Err && r->Err_0@ == "DeepFilterNet model '"@ + model_id@
                        + "' not found in "@ + models_dir@
                        + ". Download models or set ASTRIX_DF_MODEL_PATH."@,
                }
            },
        },
{
    if let Some(n) = named {
        if n.exists {
            return Ok(n.path.to_owned());
        }
        let mut s = "ASTRIX_DF_MODEL_PATH points to a missing model: ".to_owned();
        s.push_str(n.path);
        return Err(s);
    }
    if own.exists {
        return Ok(own.path.to_owned());
    }
    match found {
        Some(p) => Ok(p.to_owned()),
        None => {
            let mut s = "DeepFilterNet model '".to_owned();
            s.push_str(model_id);
            s.push_str("' not found in ");
            s.push_str(models_dir);
            s.push_str(". Download models or set ASTRIX_DF_MODEL_PATH.");
            Err(s)
        },
    }
}

/// An entry of a directory.
#[derive(Debug, Clone, PartialEq, Eq)]
pub struct DirEntry {
    pub name: String,
    pub is_file: bool,
}

/// Whether an entry is the file of a model, whatever the case of its name.
pub open spec fn is_model_entry(e: DirEntry) -> bool {
    let name = text::ascii_lowered(e.name@);
    e.is_file && (name == text::ascii_lowered(models()[0].0) || name == text::ascii_lowered(
        models()[1].0,
    ) || name == text::ascii_lowered(models()[2].0))
}

/// The index of the first entry that is the file of a model, or the length.
pub open spec fn first_model_entry(s: Seq<DirEntry>) -> int
    decreases s.len(),
{
    if s.len() == 0 || is_model_entry(s[0]) {
        0
    } else {
        1 + first_model_entry(s.drop_first())
    }
}

fn find_model_entry(entries: &Vec<DirEntry>) -> (r: Option<usize>)
    ensures
        match r {
            Some(i) => i == first_model_entry(entries@) && i < entries@.len(),
            None => first_model_entry(entries@) == entries@.len(),
        },
{
    let mut i: usize = 0;
    assert(entries@.skip(0) =~= entries@);
    while i < entries.len()
        invariant
            i <= entries@.len(),
            first_model_entry(entries@) == i + first_model_entry(entries@.skip(i as int)),
        decreases entries@.len() - i,
    {
        let name = entries[i].name.as_str();
        let known = text::eq_ignore_ascii_case(name, "off") || text::eq_ignore_ascii_case(
            name,
            "DeepFilterNet3_ll_onnx.tar.gz",
        ) || text::eq_ignore_ascii_case(name, "DeepFilterNet3_onnx.tar.gz");
        assert(entries@.skip(i as int)[0] == entries@[i as int]);
        if entries[i].is_file && known {
            return Some(i);
        }
        assert(entries@.skip(i as int).drop_first() =~= entries@.skip(i + 1));
        i += 1;
    }
    None
}

/// Where a model was found.
#[derive(Debug, Clone, Copy, PartialEq, Eq, Structural)]
pub enum ModelPlace {
    /// The file of the model with this number in the list, in the directory of
    /// models.
    InModels(usize),
    /// The same in the vendor directory.
    InVendor(usize),
    /// The entry with this number of the vendor directory.
    VendorEntry(usize),
    /// The entry with this number of the directory of models.
    ModelsEntry(usize),
}

/// Finds the file of some model: by its exact name in the directory of models and
/// then in the vendor directory, then by its name in any case in the entries of
/// the vendor directory and then of the other. A directory that cannot be read
/// ends the search.
pub fn find_model_in_vendor(
    in_models: &Vec<bool>,
    in_vendor: &Vec<bool>,
    vendor_entries: Option<&Vec<DirEntry>>,
    models_entries: Option<&Vec<DirEntry>>,
) -> (r: Option<ModelPlace>)
    ensures
        r == if first_true(in_models@) < in_models@.len() {
            Some(ModelPlace::InModels(first_true(in_models@) as usize))
        } else if first_true(in_vendor@) < in_vendor@.len() {
            Some(ModelPlace::InVendor(first_true(in_vendor@) as usize))
        } else {
            match vendor_entries {
                None => None,
                Some(v) => if first_model_entry(v@) < v@.len() {
                    Some(ModelPlace::VendorEntry(first_model_entry(v@) as usize))
                } else {
                    match models_entries {
                        None => None,
                        Some(m) => if first_model_entry(m@) < m@.len() {
                            Some(ModelPlace::ModelsEntry(first_model_entry(m@) as usize))
                        } else {
                            None
                        },
                    }
                },
            }
        },
{
    if let Some(i) = find_dll_in_vendor(in_models) {
        return Some(ModelPlace::InModels(i));
    }
    if let Some(i) = find_dll_in_vendor(in_vendor) {
        return Some(ModelPlace::InVendor(i));
    }
    match vendor_entries {
        None => None,
        Some(v) => {
            if let Some(i) = find_model_entry(v) {
                return Some(ModelPlace::VendorEntry(i));
            }
            match models_entries {
                None => None,
                Some(m) => match find_model_entry(m) {
                    Some(i) => Some(ModelPlace::ModelsEntry(i)),
                    None => None,
                },
            }
        },
    }
}

/// Checks the buffers of a frame: they have the same length.
pub fn check_frame_buffers(input: usize, output: usize) -> (r: Result<(), String>)
    ensures
        match r {
            Ok(_) => input == output,
            Err(s) => input != output && s@ == "DeepFilterNet frame buffer size mismatch: in="@
                + text::decimal(input as nat) + " out="@ + text::decimal(output as nat),
        },
{
    if input == output {
        return Ok(());
    }
    let mut s = "DeepFilterNet frame buffer size mismatch: in=".to_owned();
    text::push_decimal(&mut s, input as u64);
    s.push_str(" out=");
    text::push_decimal(&mut s, output as u64);
    Err(s)
}

proof fn ids_differ()
    ensures
        "off"@ != "DeepFilterNet3_ll_onnx.tar.gz"@,
        "off"@ != "DeepFilterNet3_onnx.tar.gz"@,
        "DeepFilterNet3_ll_onnx.tar.gz"@ != "DeepFilterNet3_onnx.tar.gz"@,
        "none"@ != "mean"@,
        "none"@ != "max"@,
        "mean"@ != "max"@,
{
    reveal_strlit("off");
    reveal_strlit("DeepFilterNet3_ll_onnx.tar.gz");
    reveal_strlit("DeepFilterNet3_onnx.tar.gz");
    reveal_strlit("none");
    reveal_strlit("mean");
    reveal_strlit("max");
    assert("off"@.len() == 3 && "DeepFilterNet3_ll_onnx.tar.gz"@.len() == 29
        && "DeepFilterNet3_onnx.tar.gz"@.len() == 26);
    assert("none"@[0] != "mean"@[0] && "max"@.len() == 3);
}

/// The id of every model that is offered is taken as it is, so that each can be selected;
/// any other gives the model that is the default, which is one of those offered.
pub proof fn offered_models_can_be_selected(i: int, id: Seq<char>)
    ensures
        0 <= i < models().len() ==> model_or_default(models()[i].0) == models()[i].0,
        (forall|j: int| 0 <= j < models().len() ==> (#[trigger] models()[j]).0 != id)
            ==> model_or_default(id) == "DeepFilterNet3_onnx.tar.gz"@,
        exists|j: int|
            0 <= j < models().len() && (#[trigger] models()[j]).0 == "DeepFilterNet3_onnx.tar.gz"@,
        exists|j: int| 0 <= j < models().len() && (#[trigger] models()[j]).0 == "off"@,
        exists|j: int|
            0 <= j < models().len() && (#[trigger] models()[j]).0
                == "DeepFilterNet3_ll_onnx.tar.gz"@,
{
    assert(models()[0].0 == "off"@);
    assert(models()[1].0 == "DeepFilterNet3_ll_onnx.tar.gz"@);
    assert(models()[2].0 == "DeepFilterNet3_onnx.tar.gz"@);
}

/// The same of the masks.
pub proof fn offered_masks_can_be_selected(i: int, id: Seq<char>)
    ensures
        0 <= i < masks().len() ==> mask_or_default(masks()[i].0) == masks()[i].0,
        (forall|j: int| 0 <= j < masks().len() ==> (#[trigger] masks()[j]).0 != id)
            ==> mask_or_default(id) == "max"@,
        mask_of("none"@) is NoMask,
        mask_of("mean"@) is Mean,
        mask_of("max"@) is Max,
        masks().len() == 3,
{
    ids_differ();
    assert(masks()[0].0 == "none"@);
    assert(masks()[1].0 == "mean"@);
    assert(masks()[2].0 == "max"@);
}

/// Selecting a model that is offered makes it the selected one, and selecting another makes
/// the default the selected one; the other settings stay. The same of a mask.
pub proof fn what_is_selected_is_in_force(v: SelectionView, i: int, id: Seq<char>)
    ensures
        0 <= i < models().len() ==> after_change(v, Change::Model(models()[i].0)).model_id
            == models()[i].0,
        (forall|j: int| 0 <= j < models().len() ==> (#[trigger] models()[j]).0 != id)
            ==> after_change(v, Change::Model(id)).model_id == "DeepFilterNet3_onnx.tar.gz"@,
        after_change(v, Change::Model(id)) == (SelectionView {
            model_id: after_change(v, Change::Model(id)).model_id,
            generation: after_change(v, Change::Model(id)).generation,
            ..v
        }),
        after_change(v, Change::Mask("none"@)).reduce_mask is NoMask,
        after_change(v, Change::Mask("mean"@)).reduce_mask is Mean,
        after_change(v, Change::Mask("max"@)).reduce_mask is Max,
        after_change(v, Change::Mask(id)) == (SelectionView {
            reduce_mask: after_change(v, Change::Mask(id)).reduce_mask,
            generation: after_change(v, Change::Mask(id)).generation,
            ..v
        }),
{
    offered_models_can_be_selected(i, id);
    offered_masks_can_be_selected(0, id);
    offered_masks_can_be_selected(1, id);
    offered_masks_can_be_selected(2, id);
    assert(masks()[0].0 == "none"@ && masks()[1].0 == "mean"@ && masks()[2].0 == "max"@);
}

/// A numeric setting that differs from what is in force comes into force, under its own
/// name; the others stay.
pub proof fn numbers_come_into_force(v: SelectionView, a: u32, b: u32, c: u32)
    ensures
        after_change(v, Change::Attenuation { value: a, differs: true }) == (SelectionView {
            atten_lim_db: a,
            generation: next_generation(v.generation),
            ..v
        }),
        after_change(v, Change::PostFilter { value: a, differs: true }) == (SelectionView {
            post_filter_beta: a,
            generation: next_generation(v.generation),
            ..v
        }),
        after_change(
            v,
            Change::Thresholds { min_db: a, max_erb: b, max_df: c, differs: true },
        ) == (SelectionView {
            min_db_thresh: a,
            max_db_erb_thresh: b,
            max_db_df_thresh: c,
            generation: next_generation(v.generation),
            ..v
        }),
        v.generation < u64::MAX ==> next_generation(v.generation) == v.generation + 1,
{
}

/// A switch is on for `1` and `true`, off for `0` and `false`, in any case of the letters,
/// and says nothing else; no text is both. The microphone is denoised unless that is
/// switched off.
pub proof fn switches_say_on_or_off(s: Seq<char>)
    ensures
        switch_of("1"@) == Some(true),
        switch_of("0"@) == Some(false),
        switch_of("true"@) == Some(true),
        switch_of("TRUE"@) == Some(true),
        switch_of("false"@) == Some(false),
        switch_of("False"@) == Some(false),
        switch_of(Seq::empty()) is None,
        s.len() != 1 && s.len() != 4 && s.len() != 5 ==> switch_of(s) is None,
        !microphone_on(Some("0"@)),
        !microphone_on(Some("false"@)),
        microphone_on(None),
        switch_of(s) is None ==> microphone_on(Some(s)),
{
    reveal_strlit("1");
    reveal_strlit("0");
    reveal_strlit("true");
    reveal_strlit("TRUE");
    reveal_strlit("false");
    reveal_strlit("False");
    assert("1"@.len() == 1 && "0"@.len() == 1 && "true"@.len() == 4 && "false"@.len() == 5
        && "TRUE"@.len() == 4 && "False"@.len() == 5);
    assert("1"@[0] != "0"@[0]);
    assert(text::ascii_lowered(s).len() == s.len());
    assert(text::ascii_lowered("true"@).len() == 4);
    assert(text::ascii_lowered("false"@).len() == 5);
    assert(text::ascii_lowered("1"@).len() == 1);
    assert(text::ascii_lowered("0"@).len() == 1);
    assert(text::ascii_lowered("False"@).len() == 5);
    assert(text::ascii_lowered("TRUE"@) =~= text::ascii_lowered("true"@));
    assert(text::ascii_lowered("False"@) =~= text::ascii_lowered("false"@));
}

} // verus!
