use vstd::prelude::*;

verus! {

/// The steps of initialisation, in the order they run.
#[derive(Clone, Copy, Debug, PartialEq, Eq, Structural)]
pub enum InitStage {
    /// Bind a drawable surface to the window.
    CreateSurface,
    /// Find a GPU adapter that can present to the surface.
    RequestAdapter,
    /// Open a logical device and its queue on the adapter.
    RequestDevice,
    /// Configure the surface's swap chain.
    CreateSwapChain,
    /// Compile the vertex shader's source.
    CompileVertexShader,
    /// Compile the fragment shader's source.
    CompileFragmentShader,
    /// Turn both compiled shaders into shader modules.
    LoadShaderModules,
    /// Build the render pipeline.
    CreatePipeline,
    /// Upload the vertices into a vertex buffer.
    UploadVertices,
}

/// Where initialisation stands.
#[derive(Clone, Copy, Debug, PartialEq, Eq, Structural)]
pub enum InitState {
    /// The stage is next to run.
    Running { stage: InitStage },
    /// Every stage succeeded: the renderer is ready.
    Ready,
    /// The stage failed; initialisation stops there for good.
    Failed { stage: InitStage },
}

/// The position of a stage in the order of initialisation.
pub open spec fn stage_index(s: InitStage) -> int {
    match s {
        InitStage::CreateSurface => 0,
        InitStage::RequestAdapter => 1,
        InitStage::RequestDevice => 2,
        InitStage::CreateSwapChain => 3,
        InitStage::CompileVertexShader => 4,
        InitStage::CompileFragmentShader => 5,
        InitStage::LoadShaderModules => 6,
        InitStage::CreatePipeline => 7,
        InitStage::UploadVertices => 8,
    }
}

/// The stage after `s`, if any.
pub open spec fn next_stage_spec(s: InitStage) -> Option<InitStage> {
    match s {
        InitStage::CreateSurface => Some(InitStage::RequestAdapter),
        InitStage::RequestAdapter => Some(InitStage::RequestDevice),
        InitStage::RequestDevice => Some(InitStage::CreateSwapChain),
        InitStage::CreateSwapChain => Some(InitStage::CompileVertexShader),
        InitStage::CompileVertexShader => Some(InitStage::CompileFragmentShader),
        InitStage::CompileFragmentShader => Some(InitStage::LoadShaderModules),
        InitStage::LoadShaderModules => Some(InitStage::CreatePipeline),
        InitStage::CreatePipeline => Some(InitStage::UploadVertices),
        InitStage::UploadVertices => None,
    }
}

/// The state after the current stage ran with the given outcome. A finished
/// initialisation, ready or failed, stays as it is.
pub open spec fn advance_spec(st: InitState, succeeded: bool) -> InitState {
    match st {
        InitState::Running { stage } => {
            if !succeeded {
                InitState::Failed { stage }
            } else {
                match next_stage_spec(stage) {
                    Some(n) => InitState::Running { stage: n },
                    None => InitState::Ready,
                }
            }
        },
        _ => st,
    }
}

/// How many stages have completed successfully in a state.
pub open spec fn completed(st: InitState) -> int {
    match st {
        InitState::Running { stage } => stage_index(stage),
        InitState::Ready => 9,
        InitState::Failed { stage } => stage_index(stage),
    }
}

/// The render pipeline exists once its stage has completed.
pub open spec fn has_pipeline(st: InitState) -> bool {
    completed(st) > stage_index(InitStage::CreatePipeline)
}

/// The vertex buffer exists once its stage has completed.
pub open spec fn has_vertex_buffer(st: InitState) -> bool {
    completed(st) > stage_index(InitStage::UploadVertices)
}

/// The state in which initialisation begins.
pub fn start() -> (r: InitState)
    ensures
        r == (InitState::Running { stage: InitStage::CreateSurface }),
        completed(r) == 0,
{
    InitState::Running { stage: InitStage::CreateSurface }
}

/// The stage that follows `s`, if any.
pub fn next_stage(s: InitStage) -> (r: Option<InitStage>)
    ensures
        r == next_stage_spec(s),
{
    match s {
        InitStage::CreateSurface => Some(InitStage::RequestAdapter),
        InitStage::RequestAdapter => Some(InitStage::RequestDevice),
        InitStage::RequestDevice => Some(InitStage::CreateSwapChain),
        InitStage::CreateSwapChain => Some(InitStage::CompileVertexShader),
        InitStage::CompileVertexShader => Some(InitStage::CompileFragmentShader),
        InitStage::CompileFragmentShader => Some(InitStage::LoadShaderModules),
        InitStage::LoadShaderModules => Some(InitStage::CreatePipeline),
        InitStage::CreatePipeline => Some(InitStage::UploadVertices),
        InitStage::UploadVertices => None,
    }
}

/// Records the outcome of the stage that just ran: the next stage on
/// success, a failure at that stage otherwise. There is no retry.
pub fn advance(st: InitState, succeeded: bool) -> (r: InitState)
    ensures
        r == advance_spec(st, succeeded),
{
    match st {
        InitState::Running { stage } => {
            if !succeeded {
                InitState::Failed { stage }
            } else {
                match next_stage(stage) {
                    Some(n) => InitState::Running { stage: n },
                    None => InitState::Ready,
                }
            }
        },
        _ => st,
    }
}

/// Whether initialisation has ended, ready or failed.
pub fn is_finished(st: InitState) -> (r: bool)
    ensures
        r <==> !(st is Running),
{
    !matches!(st, InitState::Running { .. })
}

/// The diagnostic with which the process aborts when `stage` fails.
pub fn failure_message(stage: InitStage) -> (r: &'static str)
    ensures
        stage == InitStage::CreateSurface ==> r@ == "Failed to create the surface"@,
        stage == InitStage::RequestAdapter ==> r@ == "Failed to request adapter"@,
        stage == InitStage::RequestDevice ==> r@ == "Failed to request a device"@,
        stage == InitStage::CreateSwapChain ==> r@ == "Failed to create the swap chain"@,
        stage == InitStage::CompileVertexShader ==> r@ == "Failed to compile the vertex shader"@,
        stage == InitStage::CompileFragmentShader ==> r@ == "Failed to compile the fragment shader"@,
        stage == InitStage::LoadShaderModules ==> r@ == "Failed to load the shader modules"@,
        stage == InitStage::CreatePipeline ==> r@ == "Failed to create the render pipeline"@,
        stage == InitStage::UploadVertices ==> r@ == "Failed to upload the vertices"@,
{
    match stage {
        InitStage::CreateSurface => "Failed to create the surface",
        InitStage::RequestAdapter => "Failed to request adapter",
        InitStage::RequestDevice => "Failed to request a device",
        InitStage::CreateSwapChain => "Failed to create the swap chain",
        InitStage::CompileVertexShader => "Failed to compile the vertex shader",
        InitStage::CompileFragmentShader => "Failed to compile the fragment shader",
        InitStage::LoadShaderModules => "Failed to load the shader modules",
        InitStage::CreatePipeline => "Failed to create the render pipeline",
        InitStage::UploadVertices => "Failed to upload the vertices",
    }
}

/// Each step either completes one more stage or ends initialisation; a
/// finished initialisation never changes again.
pub proof fn lemma_advance_progress(st: InitState, succeeded: bool)
    ensures
        st is Running && succeeded ==> completed(advance_spec(st, succeeded)) == completed(st) + 1,
        st is Running && !succeeded ==> completed(advance_spec(st, succeeded)) == completed(st)
            && advance_spec(st, succeeded) is Failed,
        !(st is Running) ==> advance_spec(st, succeeded) == st,
{
}

/// A failure at any stage before the pipeline's, the shader compilations
/// among them, ends initialisation with neither the pipeline nor the vertex
/// buffer created, and no later step creates them.
pub proof fn lemma_early_failure_creates_nothing(stage: InitStage, later: bool)
    requires
        stage_index(stage) <= stage_index(InitStage::CreatePipeline),
    ensures
        advance_spec(InitState::Running { stage }, false) == (InitState::Failed { stage }),
        !has_pipeline(InitState::Failed { stage }),
        !has_vertex_buffer(InitState::Failed { stage }),
        advance_spec(InitState::Failed { stage }, later) == (InitState::Failed { stage }),
{
}

/// A shader that does not compile aborts initialisation before any pipeline
/// or buffer exists.
pub proof fn lemma_shader_failure_aborts(stage: InitStage)
    requires
        stage == InitStage::CompileVertexShader || stage == InitStage::CompileFragmentShader,
    ensures
        advance_spec(InitState::Running { stage }, false) is Failed,
        !has_pipeline(advance_spec(InitState::Running { stage }, false)),
        !has_vertex_buffer(advance_spec(InitState::Running { stage }, false)),
{
}

/// Initialisation that succeeds has created exactly the pipeline and the
/// vertex buffer, both.
pub proof fn lemma_ready_has_all()
    ensures
        has_pipeline(InitState::Ready),
        has_vertex_buffer(InitState::Ready),
        advance_spec(InitState::Running { stage: InitStage::UploadVertices }, true)
            == InitState::Ready,
{
}

/// The state reached from `st` when the stages that run report `outcomes`,
/// one after another.
pub open spec fn run_spec(st: InitState, outcomes: Seq<bool>) -> InitState
    decreases outcomes.len(),
{
    if outcomes.len() == 0 {
        st
    } else {
        run_spec(advance_spec(st, outcomes[0]), outcomes.drop_first())
    }
}

/// The stage at position `i` of the order of initialisation.
pub open spec fn stage_at(i: int) -> InitStage {
    if i <= 0 {
        InitStage::CreateSurface
    } else if i == 1 {
        InitStage::RequestAdapter
    } else if i == 2 {
        InitStage::RequestDevice
    } else if i == 3 {
        InitStage::CreateSwapChain
    } else if i == 4 {
        InitStage::CompileVertexShader
    } else if i == 5 {
        InitStage::CompileFragmentShader
    } else if i == 6 {
        InitStage::LoadShaderModules
    } else if i == 7 {
        InitStage::CreatePipeline
    } else {
        InitStage::UploadVertices
    }
}

/// Runs initialisation from its start over the outcomes of the stages, in
/// order; outcomes after it has finished change nothing.
pub fn run_stages(outcomes: &Vec<bool>) -> (r: InitState)
    ensures
        r == run_spec(InitState::Running { stage: InitStage::CreateSurface }, outcomes@),
{
    let mut st = start();
    let mut i: usize = 0;
    assert(outcomes@.subrange(0, outcomes@.len() as int) =~= outcomes@);
    while i < outcomes.len()
        invariant
            i <= outcomes@.len(),
            run_spec(st, outcomes@.subrange(i as int, outcomes@.len() as int)) == run_spec(
                InitState::Running { stage: InitStage::CreateSurface },
                outcomes@,
            ),
        decreases outcomes@.len() - i,
    {
        proof {
            let rest = outcomes@.subrange(i as int, outcomes@.len() as int);
            assert(rest.drop_first() =~= outcomes@.subrange(i + 1, outcomes@.len() as int));
        }
        st = advance(st, outcomes[i]);
        i = i + 1;
    }
    proof {
        assert(outcomes@.subrange(i as int, outcomes@.len() as int) =~= Seq::<bool>::empty());
    }
    st
}

/// A finished initialisation stays as it is, whatever else is reported.
pub proof fn lemma_finished_stays(st: InitState, outcomes: Seq<bool>)
    requires
        !(st is Running),
    ensures
        run_spec(st, outcomes) == st,
    decreases outcomes.len(),
{
    if outcomes.len() > 0 {
        lemma_finished_stays(advance_spec(st, outcomes[0]), outcomes.drop_first());
    }
}

proof fn lemma_fails_at_first_failure(k: int, outcomes: Seq<bool>, i: int)
    requires
        0 <= k,
        0 <= i < outcomes.len(),
        k + i < 9,
        !outcomes[i],
        forall|j: int| 0 <= j < i ==> outcomes[j],
    ensures
        run_spec(InitState::Running { stage: stage_at(k) }, outcomes) == (InitState::Failed {
            stage: stage_at(k + i),
        }),
    decreases i,
{
    let st = InitState::Running { stage: stage_at(k) };
    if i == 0 {
        lemma_finished_stays(advance_spec(st, false), outcomes.drop_first());
    } else {
        assert(advance_spec(st, true) == (InitState::Running { stage: stage_at(k + 1) }));
        let rest = outcomes.drop_first();
        assert forall|j: int| 0 <= j < i - 1 implies rest[j] by {
            assert(rest[j] == outcomes[j + 1]);
        }
        lemma_fails_at_first_failure(k + 1, rest, i - 1);
    }
}

/// Initialisation stops at the first stage that fails, and ends there for
/// good; when that stage comes no later than building the pipeline, the shader
/// compilations among them, neither the pipeline nor the vertex buffer is ever
/// created.
pub proof fn lemma_run_stops_at_first_failure(outcomes: Seq<bool>, i: int)
    requires
        0 <= i < outcomes.len(),
        i < 9,
        !outcomes[i],
        forall|j: int| 0 <= j < i ==> outcomes[j],
    ensures
        run_spec(InitState::Running { stage: InitStage::CreateSurface }, outcomes)
            == (InitState::Failed { stage: stage_at(i) }),
        i <= stage_index(InitStage::CreatePipeline) ==> !has_pipeline(
            run_spec(InitState::Running { stage: InitStage::CreateSurface }, outcomes),
        ) && !has_vertex_buffer(
            run_spec(InitState::Running { stage: InitStage::CreateSurface }, outcomes),
        ),
{
    lemma_fails_at_first_failure(0, outcomes, i);
}

} // verus!
