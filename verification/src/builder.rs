//! Type-safe pipeline builder.
//!
//! The builder's type parameter tracks the payload type produced by the last
//! stage, so that only stages accepting that type can be chained: wiring
//! incompatible stages is a compile error, not a runtime one. A pipeline
//! records, for each stage in order, its name and the names of its types.

use vstd::prelude::*;
use std::marker::PhantomData;
use crate::element::PipelineData;

verus! {

/// What a pipeline reads of a stage: its name and the names of its input and output types.
pub trait ErasedElement: Send + Sync {
    /// The stage's name.
    spec fn spec_name(&self) -> Seq<char>;

    /// The name of the stage's input type.
    spec fn spec_input_type(&self) -> Seq<char>;

    /// The name of the stage's output type.
    spec fn spec_output_type(&self) -> Seq<char>;

    /// The stage's name.
    fn name(&self) -> (r: &str)
        ensures
            r@ == self.spec_name(),
    ;

    /// The name of the stage's input type (`()` for a source).
    fn input_type_name(&self) -> (r: &'static str)
        ensures
            r@ == self.spec_input_type(),
    ;

    /// The name of the stage's output type (`()` for a sink).
    fn output_type_name(&self) -> (r: &'static str)
        ensures
            r@ == self.spec_output_type(),
    ;
}

/// A pipeline stage as the pipeline records it.
#[derive(Clone, Debug)]
pub struct StageInfo {
    pub name: String,
    pub input_type: &'static str,
    pub output_type: &'static str,
}

/// The description of a stage: name, input type name, output type name.
pub open spec fn stage_view(s: StageInfo) -> (Seq<char>, Seq<char>, Seq<char>) {
    (s.name@, s.input_type@, s.output_type@)
}

impl StageInfo {
    /// A stage named `name` turning `input_type` into `output_type`.
    pub fn new(name: &str, input_type: &'static str, output_type: &'static str) -> (r: StageInfo)
        ensures
            stage_view(r) == (name@, input_type@, output_type@),
    {
        StageInfo { name: String::from_str(name), input_type, output_type }
    }
}

impl ErasedElement for StageInfo {
    open spec fn spec_name(&self) -> Seq<char> {
        self.name@
    }

    open spec fn spec_input_type(&self) -> Seq<char> {
        self.input_type@
    }

    open spec fn spec_output_type(&self) -> Seq<char> {
        self.output_type@
    }

    fn name(&self) -> (r: &str) {
        self.name.as_str()
    }

    fn input_type_name(&self) -> (r: &'static str) {
        self.input_type
    }

    fn output_type_name(&self) -> (r: &'static str) {
        self.output_type
    }
}

/// A stage turning `I` payloads into `O` payloads, as the builders take it: a
/// builder accepts it only where its last stage produces `I`, so stages of
/// mismatched types cannot be chained. Sources take `()` as input, sinks give `()`.
pub struct Stage<I, O> {
    info: StageInfo,
    _types: PhantomData<(I, O)>,
}

impl<I, O> View for Stage<I, O> {
    type V = (Seq<char>, Seq<char>, Seq<char>);

    /// The stage's name, input type name and output type name.
    closed spec fn view(&self) -> (Seq<char>, Seq<char>, Seq<char>) {
        stage_view(self.info)
    }
}

impl<I, O> Stage<I, O> {
    /// A stage named `name` whose types are named `input_type` and `output_type`.
    pub fn new(name: &str, input_type: &'static str, output_type: &'static str) -> (r: Stage<I, O>)
        ensures
            r@ == (name@, input_type@, output_type@),
    {
        Stage { info: StageInfo::new(name, input_type, output_type), _types: PhantomData }
    }

    /// What a pipeline records of the stage.
    pub fn into_info(self) -> (r: StageInfo)
        ensures
            stage_view(r) == self@,
    {
        self.info
    }
}

/// The descriptions of the stages, in order.
pub open spec fn describe_all(stages: Seq<StageInfo>) -> Seq<(Seq<char>, Seq<char>, Seq<char>)> {
    stages.map_values(|s: StageInfo| stage_view(s))
}

fn names_of(stages: &Vec<StageInfo>) -> (r: Vec<&str>)
    ensures
        r@.len() == stages@.len(),
        forall|i: int| 0 <= i < r@.len() ==> (#[trigger] r@[i])@ == stages@[i].name@,
{
    let mut out: Vec<&str> = Vec::new();
    let mut i: usize = 0;
    while i < stages.len()
        invariant
            i <= stages@.len(),
            out@.len() == i,
            forall|j: int| 0 <= j < i ==> (#[trigger] out@[j])@ == stages@[j].name@,
        decreases stages@.len() - i,
    {
        out.push(stages[i].name());
        i = i + 1;
    }
    out
}

fn pushed(stages: Vec<StageInfo>, stage: StageInfo) -> (r: Vec<StageInfo>)
    ensures
        describe_all(r@) == describe_all(stages@).push(stage_view(stage)),
{
    let mut stages = stages;
    let ghost before = stages@;
    stages.push(stage);
    proof {
        assert(describe_all(stages@) =~= describe_all(before).push(stage_view(stage)));
    }
    stages
}

/// Each stage takes the type the stage before it gives: its input type name is the
/// previous stage's output type name.
pub open spec fn chained(stages: Seq<(Seq<char>, Seq<char>, Seq<char>)>) -> bool {
    forall|j: int, k: int|
        #![trigger stages[j], stages[k]]
        0 <= j && k == j + 1 && k < stages.len() ==> stages[j].2 == stages[k].1
}

proof fn lemma_chain_push(stages: Seq<(Seq<char>, Seq<char>, Seq<char>)>, s: (Seq<char>, Seq<char>, Seq<char>))
    requires
        chained(stages),
        stages.len() > 0 ==> s.1 == stages.last().2,
    ensures
        chained(stages.push(s)),
{
    let t = stages.push(s);
    assert forall|j: int, k: int| 0 <= j && k == j + 1 && k < t.len() implies #[trigger] t[j].2 == #[trigger] t[k].1 by {
        if k < stages.len() {
            assert(t[j] == stages[j] && t[k] == stages[k]);
        }
    }
}

/// Initial builder state, before any stage is added.
pub struct PipelineBuilder {
    name: String,
}

impl View for PipelineBuilder {
    type V = Seq<char>;

    /// The pipeline's name.
    closed spec fn view(&self) -> Seq<char> {
        self.name@
    }
}

/// A pipeline is started from its builder: `Pipeline::new(name)`.
pub type Pipeline = PipelineBuilder;

/// Builder of a pipeline fed from outside, `CurrentOutput` produced by its last stage.
pub struct InputPipelineBuilder<CurrentOutput: PipelineData> {
    name: String,
    elements: Vec<StageInfo>,
    _phantom: PhantomData<CurrentOutput>,
}

/// Builder of a pipeline with a source, `CurrentOutput` produced by its last stage.
pub struct SourcedPipelineBuilder<CurrentOutput: PipelineData> {
    name: String,
    elements: Vec<StageInfo>,
    _phantom: PhantomData<CurrentOutput>,
}

/// A complete pipeline with external input and a sink.
pub struct InputPipeline<Input: PipelineData> {
    name: String,
    elements: Vec<StageInfo>,
    _phantom: PhantomData<Input>,
}

/// A pipeline without a sink (its outputs are returned).
pub struct OpenPipeline<Output: PipelineData> {
    name: String,
    elements: Vec<StageInfo>,
    _phantom: PhantomData<Output>,
}

/// A complete pipeline with a source and a sink.
pub struct SourcedPipeline {
    name: String,
    elements: Vec<StageInfo>,
}

/// A pipeline or builder: its name and the description of every stage, in the order
/// the stages were added.
pub struct PipelineView {
    pub name: Seq<char>,
    pub stages: Seq<(Seq<char>, Seq<char>, Seq<char>)>,
}

impl<C: PipelineData> InputPipelineBuilder<C> {
    /// Each stage takes the type the stage before it gives.
    #[verifier::type_invariant]
    spec fn stages_chained(&self) -> bool {
        chained(describe_all(self.elements@))
    }
}

impl<C: PipelineData> View for InputPipelineBuilder<C> {
    type V = PipelineView;

    closed spec fn view(&self) -> PipelineView {
        PipelineView { name: self.name@, stages: describe_all(self.elements@) }
    }
}

impl<C: PipelineData> SourcedPipelineBuilder<C> {
    /// Each stage takes the type the stage before it gives.
    #[verifier::type_invariant]
    spec fn stages_chained(&self) -> bool {
        chained(describe_all(self.elements@))
    }
}

impl<C: PipelineData> View for SourcedPipelineBuilder<C> {
    type V = PipelineView;

    closed spec fn view(&self) -> PipelineView {
        PipelineView { name: self.name@, stages: describe_all(self.elements@) }
    }
}

impl<C: PipelineData> InputPipeline<C> {
    /// Each stage takes the type the stage before it gives.
    #[verifier::type_invariant]
    spec fn stages_chained(&self) -> bool {
        chained(describe_all(self.elements@))
    }
}

impl<C: PipelineData> View for InputPipeline<C> {
    type V = PipelineView;

    closed spec fn view(&self) -> PipelineView {
        PipelineView { name: self.name@, stages: describe_all(self.elements@) }
    }
}

impl<C: PipelineData> OpenPipeline<C> {
    /// Each stage takes the type the stage before it gives.
    #[verifier::type_invariant]
    spec fn stages_chained(&self) -> bool {
        chained(describe_all(self.elements@))
    }
}

impl<C: PipelineData> View for OpenPipeline<C> {
    type V = PipelineView;

    closed spec fn view(&self) -> PipelineView {
        PipelineView { name: self.name@, stages: describe_all(self.elements@) }
    }
}

impl SourcedPipeline {
    /// Each stage takes the type the stage before it gives.
    #[verifier::type_invariant]
    spec fn stages_chained(&self) -> bool {
        chained(describe_all(self.elements@))
    }
}

impl View for SourcedPipeline {
    type V = PipelineView;

    closed spec fn view(&self) -> PipelineView {
        PipelineView { name: self.name@, stages: describe_all(self.elements@) }
    }
}

impl PipelineBuilder {
    /// A new pipeline builder with the given name.
    pub fn new(name: &str) -> (r: PipelineBuilder)
        ensures
            r@ == name@,
    {
        PipelineBuilder { name: String::from_str(name) }
    }

    /// Starts the pipeline with a source stage producing `Output`.
    pub fn source_stage<Output: PipelineData>(self, source: Stage<(), Output>) -> (r: SourcedPipelineBuilder<Output>)
        ensures
            r@.name == self@,
            r@.stages == seq![source@],
    {
        let info = source.into_info();
        let elements = pushed(Vec::new(), info);
        proof {
            assert(describe_all(Seq::<StageInfo>::empty()) =~= Seq::empty());
            assert(describe_all(elements@) =~= seq![stage_view(info)]);
        }
        SourcedPipelineBuilder { name: self.name, elements, _phantom: PhantomData }
    }

    /// Starts the pipeline expecting external input of type `T`.
    pub fn input<T: PipelineData>(self) -> (r: InputPipelineBuilder<T>)
        ensures
            r@.name == self@,
            r@.stages.len() == 0,
    {
        InputPipelineBuilder { name: self.name, elements: Vec::new(), _phantom: PhantomData }
    }
}

impl<CurrentOutput: PipelineData> InputPipelineBuilder<CurrentOutput> {
    /// The output type name of the last stage, if there is one.
    pub fn last_output_type(&self) -> (r: Option<&'static str>)
        ensures
            self@.stages.len() == 0 ==> r is None,
            self@.stages.len() > 0 ==> (r matches Some(t) && t@ == self@.stages.last().2),
    {
        let n: usize = self.elements.len();
        if n == 0 {
            None
        } else {
            Some(self.elements[n - 1].output_type_name())
        }
    }

    /// Appends a stage turning `CurrentOutput` into `Next`.
    pub fn then_stage<Next: PipelineData>(self, stage: Stage<CurrentOutput, Next>) -> (r: InputPipelineBuilder<Next>)
        requires
            self@.stages.len() > 0 ==> stage@.1 == self@.stages.last().2,
        ensures
            r@.name == self@.name,
            r@.stages == self@.stages.push(stage@),
    {
        proof {
            use_type_invariant(&self);
            lemma_chain_push(self@.stages, stage@);
        }
        InputPipelineBuilder { name: self.name, elements: pushed(self.elements, stage.into_info()), _phantom: PhantomData }
    }

    /// Terminates the pipeline with a sink stage.
    pub fn sink_stage(self, sink: Stage<CurrentOutput, ()>) -> (r: InputPipeline<CurrentOutput>)
        requires
            self@.stages.len() > 0 ==> sink@.1 == self@.stages.last().2,
        ensures
            r@.name == self@.name,
            r@.stages == self@.stages.push(sink@),
    {
        proof {
            use_type_invariant(&self);
            lemma_chain_push(self@.stages, sink@);
        }
        InputPipeline { name: self.name, elements: pushed(self.elements, sink.into_info()), _phantom: PhantomData }
    }

    /// Builds the pipeline without a sink (its outputs are returned).
    pub fn build(self) -> (r: OpenPipeline<CurrentOutput>)
        ensures
            r@ == self@,
    {
        proof {
            use_type_invariant(&self);
        }
        OpenPipeline { name: self.name, elements: self.elements, _phantom: PhantomData }
    }
}

impl<CurrentOutput: PipelineData> SourcedPipelineBuilder<CurrentOutput> {
    /// The output type name of the last stage, if there is one.
    pub fn last_output_type(&self) -> (r: Option<&'static str>)
        ensures
            self@.stages.len() == 0 ==> r is None,
            self@.stages.len() > 0 ==> (r matches Some(t) && t@ == self@.stages.last().2),
    {
        let n: usize = self.elements.len();
        if n == 0 {
            None
        } else {
            Some(self.elements[n - 1].output_type_name())
        }
    }

    /// Appends a stage turning `CurrentOutput` into `Next`.
    pub fn then_stage<Next: PipelineData>(self, stage: Stage<CurrentOutput, Next>) -> (r: SourcedPipelineBuilder<Next>)
        requires
            self@.stages.len() > 0 ==> stage@.1 == self@.stages.last().2,
        ensures
            r@.name == self@.name,
            r@.stages == self@.stages.push(stage@),
    {
        proof {
            use_type_invariant(&self);
            lemma_chain_push(self@.stages, stage@);
        }
        SourcedPipelineBuilder { name: self.name, elements: pushed(self.elements, stage.into_info()), _phantom: PhantomData }
    }

    /// Terminates the pipeline with a sink stage.
    pub fn sink_stage(self, sink: Stage<CurrentOutput, ()>) -> (r: SourcedPipeline)
        requires
            self@.stages.len() > 0 ==> sink@.1 == self@.stages.last().2,
        ensures
            r@.name == self@.name,
            r@.stages == self@.stages.push(sink@),
    {
        proof {
            use_type_invariant(&self);
            lemma_chain_push(self@.stages, sink@);
        }
        SourcedPipeline { name: self.name, elements: pushed(self.elements, sink.into_info()) }
    }

    /// Builds the pipeline without a sink (its outputs are returned).
    pub fn build(self) -> (r: OpenPipeline<CurrentOutput>)
        ensures
            r@ == self@,
    {
        proof {
            use_type_invariant(&self);
        }
        OpenPipeline { name: self.name, elements: self.elements, _phantom: PhantomData }
    }
}

impl<Input: PipelineData> InputPipeline<Input> {
    /// The pipeline name.
    pub fn name(&self) -> (r: &str)
        ensures
            r@ == self@.name,
    {
        self.name.as_str()
    }

    /// The names of all stages, in order.
    pub fn element_names(&self) -> (r: Vec<&str>)
        ensures
            r@.len() == self@.stages.len(),
            forall|i: int| 0 <= i < r@.len() ==> (#[trigger] r@[i])@ == self@.stages[i].0,
    {
        names_of(&self.elements)
    }

    /// The input and output type names of every stage, in order.
    pub fn type_flow(&self) -> (r: Vec<(&'static str, &'static str)>)
        ensures
            r@.len() == self@.stages.len(),
            forall|i: int|
                0 <= i < r@.len() ==> (#[trigger] r@[i]).0@ == self@.stages[i].1 && r@[i].1@ == self@.stages[i].2,
            forall|j: int, k: int|
                #![trigger r@[j], r@[k]]
                0 <= j && k == j + 1 && k < r@.len() ==> r@[j].1@ == r@[k].0@,
    {
        proof {
            use_type_invariant(self);
        }
        let mut out: Vec<(&'static str, &'static str)> = Vec::new();
        let mut i: usize = 0;
        while i < self.elements.len()
            invariant
                i <= self.elements@.len(),
                out@.len() == i,
                forall|j: int|
                    0 <= j < i ==> (#[trigger] out@[j]).0@ == self.elements@[j].input_type@ && out@[j].1@
                        == self.elements@[j].output_type@,
            decreases self.elements@.len() - i,
        {
            out.push((self.elements[i].input_type_name(), self.elements[i].output_type_name()));
            i = i + 1;
        }
        proof {
            let st = self@.stages;
            assert forall|j: int, k: int| 0 <= j && k == j + 1 && k < out@.len() implies #[trigger] out@[j].1@
                == #[trigger] out@[k].0@ by {
                assert(st[j] == stage_view(self.elements@[j]));
                assert(st[k] == stage_view(self.elements@[k]));
            }
        }
        out
    }
}

impl<Output: PipelineData> OpenPipeline<Output> {
    /// The pipeline name.
    pub fn name(&self) -> (r: &str)
        ensures
            r@ == self@.name,
    {
        self.name.as_str()
    }

    /// The names of all stages, in order.
    pub fn element_names(&self) -> (r: Vec<&str>)
        ensures
            r@.len() == self@.stages.len(),
            forall|i: int| 0 <= i < r@.len() ==> (#[trigger] r@[i])@ == self@.stages[i].0,
    {
        names_of(&self.elements)
    }
}

impl SourcedPipeline {
    /// The pipeline name.
    pub fn name(&self) -> (r: &str)
        ensures
            r@ == self@.name,
    {
        self.name.as_str()
    }

    /// The names of all stages, in order.
    pub fn element_names(&self) -> (r: Vec<&str>)
        ensures
            r@.len() == self@.stages.len(),
            forall|i: int| 0 <= i < r@.len() ==> (#[trigger] r@[i])@ == self@.stages[i].0,
    {
        names_of(&self.elements)
    }
}

} // verus!
