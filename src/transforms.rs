use vstd::prelude::*;

use crate::datablocks::{block_result_view, create_block, BlockModel, DataBlock, DataSchema, FieldModel};
use crate::datavalues::{broadcast, ArrayModel, ColumnarModel, DataArray};
use crate::error::FuseQueryError;
use crate::functions::{lemma_eval_ignores_saved, lemma_reset_idempotent, Function};
use crate::planners::ExpressionPlan;

verus! {

broadcast use vstd::string::to_string_from_display_ensures_for_str;

/// The column that a function contributes to a projected batch: its value, as an
/// array of the batch's row count.
pub open spec fn column_spec(f: Function, b: BlockModel) -> Result<ArrayModel, FuseQueryError> {
    match f.eval_spec(b) {
        Ok(v) => v.to_array(b.num_rows()),
        Err(e) => Err(e),
    }
}

/// The columns that a list of functions contributes, in list order; the first error
/// in list order is the outcome.
pub open spec fn project_columns(funcs: Seq<Function>, b: BlockModel) -> Result<
    Seq<ArrayModel>,
    FuseQueryError,
>
    decreases funcs.len(),
{
    if funcs.len() == 0 {
        Ok(Seq::empty())
    } else {
        match project_columns(funcs.drop_last(), b) {
            Err(e) => Err(e),
            Ok(cols) => match column_spec(funcs.last(), b) {
                Err(e) => Err(e),
                Ok(c) => Ok(cols.push(c)),
            },
        }
    }
}

/// The batch that projecting `b` through `funcs` under `schema` gives.
pub open spec fn execute_spec(schema: Seq<FieldModel>, b: BlockModel, funcs: Seq<Function>) -> Result<
    BlockModel,
    FuseQueryError,
> {
    match project_columns(funcs, b) {
        Err(e) => Err(e),
        Ok(cols) => create_block(schema, cols),
    }
}

/// Every tree of the list with its saved slots emptied.
pub open spec fn reset_all(funcs: Seq<Function>) -> Seq<Function> {
    funcs.map_values(|f: Function| f.reset())
}

/// The function trees that a list of plan nodes compiles to.
pub open spec fn compile_all(exprs: Seq<ExpressionPlan>) -> Seq<Function> {
    exprs.map_values(|e: ExpressionPlan| e.to_function_spec())
}

/// Whether a plan node compiles to a tree that holds an aggregate.
pub open spec fn is_aggregate_plan(e: ExpressionPlan) -> bool {
    e.to_function_spec().spec_is_aggregator()
}

/// `i` is the position of the first aggregate plan node of the list.
pub open spec fn first_aggregate_at(exprs: Seq<ExpressionPlan>, i: int) -> bool {
    &&& 0 <= i < exprs.len()
    &&& is_aggregate_plan(exprs[i])
    &&& forall|j: int| 0 <= j < i ==> !is_aggregate_plan(#[trigger] exprs[j])
}

proof fn lemma_prefix_error(funcs: Seq<Function>, k: int, b: BlockModel)
    requires
        0 <= k <= funcs.len(),
        project_columns(funcs.subrange(0, k), b) is Err,
    ensures
        project_columns(funcs, b) == project_columns(funcs.subrange(0, k), b),
    decreases funcs.len() - k,
{
    if k < funcs.len() {
        assert(funcs.subrange(0, k + 1).drop_last() =~= funcs.subrange(0, k));
        lemma_prefix_error(funcs, k + 1, b);
    } else {
        assert(funcs.subrange(0, k) =~= funcs);
    }
}

proof fn lemma_project_columns_reset(funcs1: Seq<Function>, funcs2: Seq<Function>, b: BlockModel)
    requires
        reset_all(funcs1) == reset_all(funcs2),
    ensures
        project_columns(funcs1, b) == project_columns(funcs2, b),
    decreases funcs1.len(),
{
    assert(funcs1.len() == reset_all(funcs1).len());
    assert(funcs2.len() == reset_all(funcs2).len());
    if funcs1.len() > 0 {
        let n = funcs1.len() - 1;
        assert(reset_all(funcs1.drop_last()) =~= reset_all(funcs1).drop_last());
        assert(reset_all(funcs2.drop_last()) =~= reset_all(funcs2).drop_last());
        lemma_project_columns_reset(funcs1.drop_last(), funcs2.drop_last(), b);
        assert(reset_all(funcs1)[n] == funcs1.last().reset());
        assert(reset_all(funcs2)[n] == funcs2.last().reset());
        lemma_eval_ignores_saved(funcs1.last(), b);
        lemma_eval_ignores_saved(funcs2.last(), b);
    }
}

proof fn lemma_project_columns_rows(funcs: Seq<Function>, b: BlockModel)
    requires
        project_columns(funcs, b) is Ok,
    ensures
        project_columns(funcs, b)->Ok_0.len() == funcs.len(),
        forall|i: int|
            0 <= i < funcs.len() ==> (#[trigger] project_columns(funcs, b)->Ok_0[i]).len()
                == b.num_rows(),
    decreases funcs.len(),
{
    if funcs.len() > 0 {
        lemma_project_columns_rows(funcs.drop_last(), b);
        let v = funcs.last().eval_spec(b)->Ok_0;
        match v {
            ColumnarModel::Constant(c) => {
                assert(broadcast(c, b.num_rows()).len() == b.num_rows());
            },
            _ => {},
        }
    }
}

/// Projection has a fixed shape: two pipeline instances that hold copies of one
/// function list (whatever their nodes saved) and are in one state give the same
/// outcome for the same upstream item; an output batch carries the projected schema
/// and, where there is at least one function, the upstream batch's row count.
pub proof fn lemma_stream_shape(
    s1: StreamModel,
    s2: StreamModel,
    up: Option<Result<BlockModel, FuseQueryError>>,
)
    requires
        s1.schema == s2.schema,
        reset_all(s1.funcs) == reset_all(s2.funcs),
        s1.finished == s2.finished,
    ensures
        stream_step(s1, up) == stream_step(s2, up),
        stream_step(s1, up) matches Some(Ok(out)) ==> {
            &&& out.schema == s1.schema
            &&& s1.funcs.len() > 0 ==> out.num_rows() == up->0->Ok_0.num_rows()
        },
{
    if !s1.finished && up is Some && up->0 is Ok {
        let b = up->0->Ok_0;
        assert(reset_all(reset_all(s1.funcs)) =~= reset_all(s1.funcs)) by {
            assert forall|i: int| 0 <= i < s1.funcs.len() implies s1.funcs[i].reset().reset()
                == s1.funcs[i].reset() by {
                lemma_reset_idempotent(s1.funcs[i]);
            }
        }
        assert(reset_all(reset_all(s2.funcs)) =~= reset_all(s2.funcs)) by {
            assert forall|i: int| 0 <= i < s2.funcs.len() implies s2.funcs[i].reset().reset()
                == s2.funcs[i].reset() by {
                lemma_reset_idempotent(s2.funcs[i]);
            }
        }
        lemma_project_columns_reset(reset_all(s1.funcs), reset_all(s2.funcs), b);
        if project_columns(reset_all(s1.funcs), b) is Ok {
            lemma_project_columns_rows(reset_all(s1.funcs), b);
        }
    }
}

/// A reference to an upstream processor: the empty placeholder, or the processor at
/// an index of the pipeline's arena.
#[derive(Clone, Copy, Debug, PartialEq, Eq, Structural)]
pub enum ProcessorRef {
    Empty,
    Node(usize),
}

/// The processor that computes each output column from an expression over the input
/// batch.
pub struct ProjectionTransform {
    funcs: Vec<Function>,
    schema: DataSchema,
    input: ProcessorRef,
}

/// The mathematical content of a `ProjectionTransform`.
pub struct ProjectionModel {
    pub funcs: Seq<Function>,
    pub schema: Seq<FieldModel>,
    pub input: ProcessorRef,
}

impl View for ProjectionTransform {
    type V = ProjectionModel;

    closed spec fn view(&self) -> ProjectionModel {
        ProjectionModel { funcs: self.funcs@, schema: self.schema@, input: self.input }
    }
}

impl ProjectionTransform {
    /// Compiles each plan node; fails on the first one that holds an aggregate,
    /// naming its function. A new transform reads from the empty placeholder.
    pub fn try_create(schema: DataSchema, exprs: Vec<ExpressionPlan>) -> (r: Result<
        ProjectionTransform,
        FuseQueryError,
    >)
        ensures
            r is Ok <==> (forall|i: int| 0 <= i < exprs@.len() ==> !is_aggregate_plan(#[trigger] exprs@[i])),
            r is Ok ==> r->Ok_0@ == (ProjectionModel {
                funcs: compile_all(exprs@),
                schema: schema@,
                input: ProcessorRef::Empty,
            }),
            r is Err ==> exists|i: int|
                first_aggregate_at(exprs@, i) && (#[trigger] r->Err_0) is AggregateInProjection
                    && r->Err_0->AggregateInProjection_0@ == exprs@[i].to_function_spec().spec_name(),
    {
        let mut funcs: Vec<Function> = Vec::new();
        let mut i: usize = 0;
        while i < exprs.len()
            invariant
                i <= exprs.len(),
                funcs@.len() == i,
                forall|j: int| 0 <= j < i ==> funcs@[j] == (#[trigger] exprs@[j]).to_function_spec(),
                forall|j: int| 0 <= j < i ==> !is_aggregate_plan(#[trigger] exprs@[j]),
            decreases exprs.len() - i,
        {
            let func = exprs[i].to_function();
            if func.is_aggregator() {
                let name = func.name().to_string();
                let r = Err(FuseQueryError::AggregateInProjection(name));
                assert(first_aggregate_at(exprs@, i as int));
                return r;
            }
            funcs.push(func);
            i = i + 1;
        }
        assert(funcs@ =~= compile_all(exprs@));
        Ok(ProjectionTransform { funcs, schema, input: ProcessorRef::Empty })
    }

    /// Evaluates every function against the batch, in list order, and assembles their
    /// values, each as an array of the batch's row count, into a batch of the
    /// projected schema. The first failure is the outcome.
    pub fn expression_executor(
        projected_schema: &DataSchema,
        block: DataBlock,
        funcs: Vec<Function>,
    ) -> (r: Result<DataBlock, FuseQueryError>)
        ensures
            block_result_view(r) == execute_spec(projected_schema@, block@, funcs@),
    {
        let ghost all = funcs@;
        let ghost b = block@;
        let total = funcs.len();
        let mut rest = funcs;
        let mut column_values: Vec<DataArray> = Vec::new();
        let n = block.num_rows();
        let mut i: usize = 0;
        assert(all.subrange(0, 0) =~= Seq::<Function>::empty());
        assert(column_values@.map_values(|c: DataArray| c@) =~= Seq::<ArrayModel>::empty());
        while rest.len() > 0
            invariant
                i + rest@.len() == all.len(),
                rest@ == all.subrange(i as int, all.len() as int),
                n == b.num_rows(),
                b == block@,
                all == funcs@,
                all.len() == total,
                project_columns(all.subrange(0, i as int), b) == Ok::<
                    Seq<ArrayModel>,
                    FuseQueryError,
                >(column_values@.map_values(|c: DataArray| c@)),
            decreases rest.len(),
        {
            let mut func = rest.remove(0);
            let ghost next = all.subrange(0, i + 1);
            assert(next.drop_last() =~= all.subrange(0, i as int));
            assert(next.last() == func);
            let ghost f0 = func;
            match func.eval(&block) {
                Ok(()) => {},
                Err(e) => {
                    assert(column_spec(f0, b) == Err::<ArrayModel, FuseQueryError>(e));
                    assert(project_columns(next, b) == Err::<Seq<ArrayModel>, FuseQueryError>(e));
                    proof {
                        lemma_prefix_error(all, i + 1, b);
                    }
                    return Err(e);
                },
            }
            let value = match func.result() {
                Ok(v) => v,
                Err(e) => return Err(e),
            };
            let column = match value.to_array(n) {
                Ok(c) => c,
                Err(e) => {
                    assert(column_spec(f0, b) == Err::<ArrayModel, FuseQueryError>(e));
                    assert(project_columns(next, b) == Err::<Seq<ArrayModel>, FuseQueryError>(e));
                    proof {
                        lemma_prefix_error(all, i + 1, b);
                    }
                    return Err(e);
                },
            };
            let ghost prev = column_values@;
            column_values.push(column);
            assert(column_values@.map_values(|c: DataArray| c@) =~= prev.map_values(
                |c: DataArray| c@,
            ).push(column@));
            i = i + 1;
        }
        assert(all.subrange(0, i as int) =~= all);
        DataBlock::create(projected_schema.duplicate(), column_values)
    }

    /// The processor's diagnostic label.
    pub fn name(&self) -> (r: &'static str)
        ensures
            r@ == "ProjectionTransform"@,
    {
        "ProjectionTransform"
    }

    /// Wires the upstream processor; the only input is replaced.
    pub fn connect_to(&mut self, input: ProcessorRef) -> (r: Result<(), FuseQueryError>)
        ensures
            r is Ok,
            final(self)@ == (ProjectionModel { input, ..old(self)@ }),
    {
        self.input = input;
        Ok(())
    }

    /// The current wiring: the one upstream reference.
    pub fn inputs(&self) -> (r: Vec<ProcessorRef>)
        ensures
            r@ == seq![self@.input],
    {
        let mut r: Vec<ProcessorRef> = Vec::new();
        r.push(self.input);
        r
    }

    /// The output sequence: an expression stream over the projected schema, with
    /// copies of the functions that share no saved state with this transform.
    pub fn execute(&self) -> (r: ExpressionStream)
        ensures
            r@ == (StreamModel {
                schema: self@.schema,
                funcs: reset_all(self@.funcs),
                finished: false,
            }),
    {
        let mut funcs: Vec<Function> = Vec::new();
        let mut i: usize = 0;
        while i < self.funcs.len()
            invariant
                i <= self.funcs.len(),
                funcs@.len() == i,
                forall|j: int| 0 <= j < i ==> #[trigger] funcs@[j] == self.funcs@[j].reset(),
            decreases self.funcs.len() - i,
        {
            let f = self.funcs[i].fresh_copy();
            funcs.push(f);
            i = i + 1;
        }
        assert(funcs@ =~= reset_all(self@.funcs));
        ExpressionStream::create(self.schema.duplicate(), funcs)
    }
}

/// What one pull gives: end of sequence, a failure, or a batch.
pub open spec fn pull_view(p: Option<Result<DataBlock, FuseQueryError>>) -> Option<
    Result<BlockModel, FuseQueryError>,
> {
    match p {
        None => None,
        Some(r) => Some(block_result_view(r)),
    }
}

/// A lazy, finite sequence of batches derived from an upstream sequence: each
/// upstream batch is projected through the functions. It ends for good when upstream
/// ends or when a pull fails.
pub struct ExpressionStream {
    schema: DataSchema,
    funcs: Vec<Function>,
    finished: bool,
}

/// The mathematical content of an `ExpressionStream`.
pub struct StreamModel {
    pub schema: Seq<FieldModel>,
    pub funcs: Seq<Function>,
    pub finished: bool,
}

impl View for ExpressionStream {
    type V = StreamModel;

    closed spec fn view(&self) -> StreamModel {
        StreamModel { schema: self.schema@, funcs: self.funcs@, finished: self.finished }
    }
}

/// What a pull gives, for a stream in state `s` handed the upstream's next item `up`.
pub open spec fn stream_step(s: StreamModel, up: Option<Result<BlockModel, FuseQueryError>>) -> Option<
    Result<BlockModel, FuseQueryError>,
> {
    if s.finished {
        None
    } else {
        match up {
            None => None,
            Some(Err(e)) => Some(Err(e)),
            Some(Ok(b)) => Some(execute_spec(s.schema, b, reset_all(s.funcs))),
        }
    }
}

impl ExpressionStream {
    pub fn create(schema: DataSchema, funcs: Vec<Function>) -> (r: ExpressionStream)
        ensures
            r@ == (StreamModel { schema: schema@, funcs: funcs@, finished: false }),
    {
        ExpressionStream { schema, funcs, finished: false }
    }

    /// Whether the sequence has ended.
    pub fn is_finished(&self) -> (r: bool)
        ensures
            r == self@.finished,
    {
        self.finished
    }

    /// One pull: takes the upstream's next item (`None` when upstream is exhausted)
    /// and gives this sequence's next item. Upstream failures pass through unchanged;
    /// a batch is projected whole or not at all.
    pub fn next_block(&mut self, upstream: Option<Result<DataBlock, FuseQueryError>>) -> (r: Option<
        Result<DataBlock, FuseQueryError>,
    >)
        ensures
            pull_view(r) == stream_step(old(self)@, pull_view(upstream)),
            final(self)@ == (StreamModel {
                finished: old(self)@.finished || r is None || r->0 is Err,
                ..old(self)@
            }),
    {
        if self.finished {
            return None;
        }
        match upstream {
            None => {
                self.finished = true;
                None
            },
            Some(Err(e)) => {
                self.finished = true;
                Some(Err(e))
            },
            Some(Ok(block)) => {
                let mut funcs: Vec<Function> = Vec::new();
                let mut i: usize = 0;
                while i < self.funcs.len()
                    invariant
                        i <= self.funcs.len(),
                        funcs@.len() == i,
                        forall|j: int| 0 <= j < i ==> #[trigger] funcs@[j] == self.funcs@[j].reset(),
                    decreases self.funcs.len() - i,
                {
                    let f = self.funcs[i].fresh_copy();
                    funcs.push(f);
                    i = i + 1;
                }
                assert(funcs@ =~= reset_all(self@.funcs));
                let r = ProjectionTransform::expression_executor(&self.schema, block, funcs);
                if r.is_err() {
                    self.finished = true;
                }
                Some(r)
            },
        }
    }
}

} // verus!
