//! The state of a device and the decisions that its operations take.

use crate::capture::alloc_after;
use crate::capture::alloc_fits;
use crate::capture::alloc_route;
use crate::capture::capture_action;
use crate::capture::capture_after;
use crate::capture::capture_takes;
use crate::capture::presized_action;
use crate::capture::presized_after;
use crate::capture::presized_takes;
use crate::capture::result_route;
use crate::capture::result_upload;
use crate::capture::staged;
use crate::capture::upload_after;
use crate::capture::upload_route;
use crate::capture::AllocMode;
use crate::capture::AllocRoute;
use crate::capture::CaptureAction;
use crate::capture::CaptureEvent;
use crate::capture::CaptureState;
use crate::capture::CaptureView;
use crate::capture::PresizedEvent;
use crate::capture::UploadRoute;
use crate::capture::WindowView;
use crate::device_id::count_on;
use crate::device_id::DeviceId;
use crate::device_id::DeviceIds;
use crate::dtype::DType;
use crate::error::Error;
use crate::error::ErrorOf;
use crate::error::Op;
use crate::shape::dims_fit;
use crate::shape::dims_product;
use crate::shape::elem_count;
use crate::shape::elem_count_fits;
use crate::text::decimal;
use crate::text::str_eq;
use vstd::prelude::*;
use vstd::string::StringExecFns;

verus! {

/// Seed of a new device's random numbers.
pub const DEFAULT_SEED: u64 = 299792458;

/// Which built-in kernel modules have been loaded, by index.
#[derive(Debug)]
pub struct ModuleStore {
    mdls: Vec<bool>,
}

impl View for ModuleStore {
    type V = Seq<bool>;

    closed spec fn view(&self) -> Seq<bool> {
        self.mdls@
    }
}

/// Where the work of a device is issued.
#[derive(Clone, Copy, Debug, PartialEq, Eq, Structural)]
pub enum ActiveStream {
    Main,
    Side,
}

/// Where a device is.
#[derive(Clone, Copy, Debug, PartialEq, Eq, Structural)]
pub enum DeviceLocation {
    Cuda { gpu_id: usize },
}

/// The state of a device.
#[derive(Debug)]
pub struct CudaDevice {
    id: DeviceId,
    ordinal: usize,
    modules: ModuleStore,
    custom_modules: Vec<String>,
    stream_override: bool,
    side_branch: bool,
    device_pointer_mode_active: bool,
    seed_value: u64,
    cublas_workspace: Option<usize>,
    capture: CaptureState,
}

/// The state of a device, as a mathematical value.
pub struct DeviceView {
    /// Identifier of the device.
    pub id: DeviceId,
    /// Number of the device on the machine.
    pub ordinal: usize,
    /// Which built-in kernel modules have been loaded.
    pub modules: Seq<bool>,
    /// Names of the custom kernel modules that have been loaded.
    pub custom: Set<Seq<char>>,
    /// Work is issued on the side stream.
    pub on_side: bool,
    /// The side stream and its events exist.
    pub side_exists: bool,
    /// The matrix library reads its coefficients from device memory.
    pub device_pointers: bool,
    /// Seed of the random numbers.
    pub seed: u64,
    /// Bytes of the matrix library's workspace.
    pub workspace: Option<usize>,
    /// Capture state.
    pub capture: CaptureView,
}

impl View for CudaDevice {
    type V = DeviceView;

    closed spec fn view(&self) -> DeviceView {
        DeviceView {
            id: self.id,
            ordinal: self.ordinal,
            modules: self.modules@,
            custom: Set::new(
                |name: Seq<char>|
                    exists|i: int|
                        0 <= i < self.custom_modules@.len() && (#[trigger] self.custom_modules@[i])@
                            == name,
            ),
            on_side: self.stream_override,
            side_exists: self.side_branch,
            device_pointers: self.device_pointer_mode_active,
            seed: self.seed_value,
            workspace: self.cublas_workspace,
            capture: self.capture@,
        }
    }
}

/// What bringing up a device asks for, in order.
#[derive(Clone, Copy, Debug, PartialEq, Eq, Structural)]
pub enum InitStep {
    CreateContext { ordinal: usize },
    /// Take the context's default stream.
    DefaultStream,
    /// Create a stream of the device's own.
    NewStream,
    /// Turn off the tracking of uses by events.
    DisableEventTracking,
    CreateBlas,
    /// Upload the constants one and zero in each type that the matrix library takes.
    UploadOneZero,
    CreateRng { seed: u64 },
}

/// What brings up a device on its context's default stream.
pub open spec fn init_steps(ordinal: usize) -> Seq<InitStep> {
    seq![
        InitStep::CreateContext { ordinal },
        InitStep::DefaultStream,
        InitStep::CreateBlas,
        InitStep::UploadOneZero,
        InitStep::CreateRng { seed: DEFAULT_SEED },
    ]
}

/// What brings up a device on a stream of its own, which is never tracked by events.
pub open spec fn init_steps_with_stream(ordinal: usize) -> Seq<InitStep> {
    seq![
        InitStep::CreateContext { ordinal },
        InitStep::NewStream,
        InitStep::DisableEventTracking,
        InitStep::CreateBlas,
        InitStep::UploadOneZero,
        InitStep::CreateRng { seed: DEFAULT_SEED },
    ]
}

/// The state of a device that has just been brought up.
pub open spec fn new_device(id: DeviceId, ordinal: usize, num_modules: nat) -> DeviceView {
    DeviceView {
        id,
        ordinal,
        modules: Seq::new(num_modules, |i: int| false),
        custom: Set::empty(),
        on_side: false,
        side_exists: false,
        device_pointers: false,
        seed: DEFAULT_SEED,
        workspace: None,
        capture: CaptureView {
            mode: AllocMode::Normal,
            measured: Seq::empty(),
            arena: None,
            thread: None,
            pool: Seq::empty(),
            cursor: 0,
            window: WindowView::Closed,
        },
    }
}

/// How a kernel is fetched.
#[derive(Clone, Copy, Debug, PartialEq, Eq, Structural)]
pub enum FuncPlan {
    /// From a module that is there already.
    FromLoaded,
    /// From a module that has to be loaded first.
    LoadModule,
}

/// How a kernel of built-in module `index` is fetched.
pub open spec fn func_plan(d: DeviceView, index: int) -> FuncPlan {
    if d.modules[index] {
        FuncPlan::FromLoaded
    } else {
        FuncPlan::LoadModule
    }
}

/// How a kernel of the custom module with this name is fetched.
pub open spec fn custom_func_plan(d: DeviceView, name: Seq<char>) -> FuncPlan {
    if d.custom.contains(name) {
        FuncPlan::FromLoaded
    } else {
        FuncPlan::LoadModule
    }
}

/// The state once built-in module `index` has been loaded.
pub open spec fn with_module(d: DeviceView, index: int) -> DeviceView {
    DeviceView { modules: d.modules.update(index, true), ..d }
}

/// The state once the custom module with this name has been loaded.
pub open spec fn with_custom_module(d: DeviceView, name: Seq<char>) -> DeviceView {
    DeviceView { custom: d.custom.insert(name), ..d }
}

/// The state once work goes to the main stream.
pub open spec fn on_main(d: DeviceView) -> DeviceView {
    DeviceView { on_side: false, ..d }
}

/// The main stream has to wait for the side stream where work joins it.
pub open spec fn join_waits(d: DeviceView) -> bool {
    d.side_exists
}

/// What happened last while work is moved to the side stream.
#[derive(Clone, Copy, Debug, PartialEq, Eq, Structural)]
pub enum ForkEvent {
    Start,
    /// The side stream and its two events have been created, or could not be.
    Created { ok: bool },
    /// The side stream waits for what the main stream has been given, or could not be made to.
    Fenced { ok: bool },
}

/// What has to happen next while work is moved to the side stream.
#[derive(Clone, Copy, Debug, PartialEq, Eq, Structural)]
pub enum ForkAction {
    /// Create the side stream, the fork event and the join event.
    Create,
    /// Record the fork event on the main stream, and let the side stream wait for it.
    Fence,
    /// Work now goes to the side stream.
    Done,
    /// The step that failed ends the operation.
    Fail,
}

/// The state after an event while work is moved to the side stream.
pub open spec fn fork_after(d: DeviceView, event: ForkEvent) -> DeviceView {
    match event {
        ForkEvent::Start => d,
        ForkEvent::Created { ok } => if ok {
            DeviceView { side_exists: true, ..d }
        } else {
            d
        },
        ForkEvent::Fenced { ok } => if ok {
            DeviceView { on_side: true, ..d }
        } else {
            d
        },
    }
}

/// What has to happen after an event while work is moved to the side stream.
pub open spec fn fork_action(d: DeviceView, event: ForkEvent) -> ForkAction {
    match event {
        ForkEvent::Start => if d.side_exists {
            ForkAction::Fence
        } else {
            ForkAction::Create
        },
        ForkEvent::Created { ok } => if ok {
            ForkAction::Fence
        } else {
            ForkAction::Fail
        },
        ForkEvent::Fenced { ok } => if ok {
            ForkAction::Done
        } else {
            ForkAction::Fail
        },
    }
}

/// What happened last while work runs with coefficients in device memory.
#[derive(Clone, Copy, Debug, PartialEq, Eq, Structural)]
pub enum PointerEvent {
    Start,
    /// The matrix library has been switched to device memory, or could not be.
    DeviceSet { ok: bool },
    /// The work has returned, well or not.
    Ran,
    /// The matrix library has been switched back to host memory, or could not be.
    HostSet { ok: bool },
}

/// What has to happen next while work runs with coefficients in device memory.
#[derive(Clone, Copy, Debug, PartialEq, Eq, Structural)]
pub enum PointerAction {
    /// Switch the matrix library to device memory.
    SetDevice,
    /// Run the work; `warn` that the switch failed.
    Run { warn: bool },
    /// Switch the matrix library back to host memory.
    SetHost,
    /// Return what the work returned; `warn` that the switch failed.
    Return { warn: bool },
}

/// The state after an event while work runs with coefficients in device memory.
pub open spec fn pointer_after(d: DeviceView, event: PointerEvent) -> DeviceView {
    match event {
        PointerEvent::DeviceSet { .. } => DeviceView { device_pointers: true, ..d },
        PointerEvent::Ran => DeviceView { device_pointers: false, ..d },
        _ => d,
    }
}

/// What has to happen after an event while work runs with coefficients in device memory. A switch
/// that fails stops nothing.
pub open spec fn pointer_action(event: PointerEvent) -> PointerAction {
    match event {
        PointerEvent::Start => PointerAction::SetDevice,
        PointerEvent::DeviceSet { ok } => PointerAction::Run { warn: !ok },
        PointerEvent::Ran => PointerAction::SetHost,
        PointerEvent::HostSet { ok } => PointerAction::Return { warn: !ok },
    }
}

/// What happened last while the matrix library is given its workspace.
#[derive(Clone, Copy, Debug, PartialEq, Eq, Structural)]
pub enum WorkspaceSetEvent {
    Start,
    /// The workspace has been allocated, or could not be.
    Allocated { ok: bool },
    /// The matrix library has answered with this status; zero is success.
    Answered { status: u32 },
}

/// What has to happen next while the matrix library is given its workspace.
#[derive(Clone, Copy, Debug, PartialEq, Eq, Structural)]
pub enum WorkspaceSetAction {
    /// Allocate the workspace.
    AllocWorkspace { bytes: usize },
    /// Hand the workspace to the matrix library.
    SetWorkspace { bytes: usize },
    /// There is a workspace.
    Done,
    /// The allocation that failed ends the operation.
    Fail,
    /// The matrix library refused the workspace, which goes again.
    Refused { status: u32 },
}

/// The state after an event while the matrix library is given a workspace of `bytes` bytes.
pub open spec fn workspace_set_after(
    d: DeviceView,
    bytes: usize,
    event: WorkspaceSetEvent,
) -> DeviceView {
    match event {
        WorkspaceSetEvent::Answered { status } => if status == 0 {
            DeviceView { workspace: Some(bytes), ..d }
        } else {
            d
        },
        _ => d,
    }
}

/// What has to happen after an event while the matrix library is given a workspace.
pub open spec fn workspace_set_action(
    d: DeviceView,
    bytes: usize,
    event: WorkspaceSetEvent,
) -> WorkspaceSetAction {
    match event {
        WorkspaceSetEvent::Start => if d.workspace is Some {
            WorkspaceSetAction::Done
        } else {
            WorkspaceSetAction::AllocWorkspace { bytes }
        },
        WorkspaceSetEvent::Allocated { ok } => if ok {
            WorkspaceSetAction::SetWorkspace { bytes }
        } else {
            WorkspaceSetAction::Fail
        },
        WorkspaceSetEvent::Answered { status } => if status == 0 {
            WorkspaceSetAction::Done
        } else {
            WorkspaceSetAction::Refused { status }
        },
    }
}

/// What happened last while the random numbers start over.
#[derive(Clone, Copy, Debug, PartialEq, Eq, Structural)]
pub enum SeedEvent {
    Start,
    /// The new generator has been created, or could not be.
    Created { ok: bool },
}

/// What has to happen next while the random numbers start over.
#[derive(Clone, Copy, Debug, PartialEq, Eq, Structural)]
pub enum SeedAction {
    /// Create a new generator, at the beginning of the seed's sequence.
    CreateRng { seed: u64 },
    /// The new generator takes the place of the former one.
    Done,
    /// The creation that failed ends the operation, and the former generator stays.
    Fail,
}

/// The state after an event while the random numbers start over from `seed`.
pub open spec fn seed_after(d: DeviceView, seed: u64, event: SeedEvent) -> DeviceView {
    match event {
        SeedEvent::Created { ok: true } => DeviceView { seed, ..d },
        _ => d,
    }
}

/// What has to happen after an event while the random numbers start over from `seed`.
pub open spec fn seed_action(seed: u64, event: SeedEvent) -> SeedAction {
    match event {
        SeedEvent::Start => SeedAction::CreateRng { seed },
        SeedEvent::Created { ok } => if ok {
            SeedAction::Done
        } else {
            SeedAction::Fail
        },
    }
}

/// Where a buffer of zeros comes from.
#[derive(Clone, Copy, Debug, PartialEq, Eq, Structural)]
pub struct ZeroedRoute {
    pub route: AllocRoute,
    /// The buffer has to be cleared after it was taken; otherwise it is allocated as zeros.
    pub clear: bool,
}

/// Where a buffer of zeros of `bytes` bytes on `thread` comes from.
pub open spec fn zeroed_route(c: CaptureView, thread: u64, bytes: int) -> Result<
    ZeroedRoute,
    ErrorOf<Seq<usize>>,
> {
    match alloc_route(c, thread, bytes) {
        Ok(route) => Ok(ZeroedRoute { route, clear: route is Arena }),
        Err(e) => Err(e),
    }
}

/// A failed or succeeded request for a buffer of zeros, as a mathematical value.
pub open spec fn result_zeroed(r: Result<ZeroedRoute, Error>) -> Result<
    ZeroedRoute,
    ErrorOf<Seq<usize>>,
> {
    match r {
        Ok(a) => Ok(a),
        Err(e) => Err(e@),
    }
}

/// A tensor buffer that was granted.
#[derive(Clone, Copy, Debug, PartialEq, Eq, Structural)]
pub struct Allocation {
    /// The device that the buffer is on.
    pub device: DeviceId,
    /// Where the buffer comes from.
    pub route: AllocRoute,
    /// Element type.
    pub dtype: DType,
    /// Number of elements.
    pub len: usize,
    /// The buffer has to hold zeros.
    pub zeroed: bool,
    /// The buffer has to be cleared after it was taken.
    pub clear: bool,
}

/// What granting a buffer of `len` elements on `thread` gives.
pub open spec fn buffer_result(
    d: DeviceView,
    thread: u64,
    dtype: DType,
    len: int,
    zeroed: bool,
) -> Result<Allocation, ErrorOf<Seq<usize>>> {
    match alloc_route(d.capture, thread, len * dtype.size_in_bytes()) {
        Ok(route) => Ok(
            Allocation {
                device: d.id,
                route,
                dtype,
                len: len as usize,
                zeroed,
                clear: zeroed && route is Arena,
            },
        ),
        Err(e) => Err(e),
    }
}

/// The state after granting or refusing a buffer of `len` elements on `thread`.
pub open spec fn buffer_after(d: DeviceView, thread: u64, dtype: DType, len: int) -> DeviceView {
    DeviceView { capture: alloc_after(d.capture, thread, len * dtype.size_in_bytes()), ..d }
}

/// A failed or succeeded request for a buffer, as a mathematical value.
pub open spec fn result_buffer(r: Result<Allocation, Error>) -> Result<
    Allocation,
    ErrorOf<Seq<usize>>,
> {
    match r {
        Ok(a) => Ok(a),
        Err(e) => Err(e@),
    }
}

/// What happened last while uniform random numbers are drawn.
#[derive(Clone, Copy, Debug, PartialEq, Eq, Structural)]
pub enum UniformEvent {
    Start,
    /// The buffer has been filled with numbers from the unit interval, or could not be.
    Filled { ok: bool },
}

/// What has to happen next while uniform random numbers are drawn.
#[derive(Clone, Copy, Debug, PartialEq, Eq, Structural)]
pub enum UniformAction {
    /// Take this buffer and fill it with numbers from the unit interval.
    Fill { buffer: Allocation },
    /// Take this buffer too, and scale the numbers into it; it is the result.
    Scale { into: Allocation },
    /// The buffer that was filled is the result.
    Done,
    /// The step that failed ends the operation.
    Fail,
}

/// The state after an event while `len` uniform random numbers are drawn on `thread`. The numbers
/// are scaled from one buffer into another.
pub open spec fn uniform_after(
    d: DeviceView,
    thread: u64,
    dtype: DType,
    len: int,
    unit_interval: bool,
    event: UniformEvent,
) -> DeviceView {
    let granted = match event {
        UniformEvent::Start => rand_takes(dtype),
        UniformEvent::Filled { ok } => ok && !unit_interval,
    };
    if granted {
        buffer_after(d, thread, dtype, len)
    } else {
        d
    }
}

/// What has to happen after an event while `len` uniform random numbers are drawn on `thread`.
pub open spec fn uniform_action(
    d: DeviceView,
    thread: u64,
    dtype: DType,
    len: int,
    unit_interval: bool,
    event: UniformEvent,
) -> Result<UniformAction, ErrorOf<Seq<usize>>> {
    match event {
        UniformEvent::Start => if rand_takes(dtype) {
            match buffer_result(d, thread, dtype, len, false) {
                Ok(buffer) => Ok(UniformAction::Fill { buffer }),
                Err(e) => Err(e),
            }
        } else {
            Err(ErrorOf::UnsupportedDType { dtype, op: Op::RandUniform })
        },
        UniformEvent::Filled { ok } => if !ok {
            Ok(UniformAction::Fail)
        } else if unit_interval {
            Ok(UniformAction::Done)
        } else {
            match buffer_result(d, thread, dtype, len, false) {
                Ok(into) => Ok(UniformAction::Scale { into }),
                Err(e) => Err(e),
            }
        },
    }
}

/// A failed or succeeded step of drawing uniform random numbers, as a mathematical value.
pub open spec fn result_uniform(r: Result<UniformAction, Error>) -> Result<
    UniformAction,
    ErrorOf<Seq<usize>>,
> {
    match r {
        Ok(a) => Ok(a),
        Err(e) => Err(e@),
    }
}

/// The element types that random numbers can be drawn in.
pub open spec fn rand_takes(dtype: DType) -> bool {
    dtype is F32 || dtype is F64
}

/// The number of normal numbers that are drawn for `n`: they come in pairs.
pub open spec fn even_count(n: int) -> int {
    if n % 2 == 1 {
        n + 1
    } else {
        n
    }
}

/// The number of elements of a tensor, and of its bytes where it can be granted, fit the machine.
pub open spec fn tensor_fits(c: CaptureView, thread: u64, dims: Seq<usize>, dtype: DType) -> bool {
    dims_fit(dims) && (!dtype.is_dummy() ==> alloc_fits(
        c,
        thread,
        dims_product(dims) * dtype.size_in_bytes(),
    ))
}

/// The number of uniform random numbers, and of their bytes where they can be drawn, fit the
/// machine.
pub open spec fn uniform_fits(c: CaptureView, thread: u64, dims: Seq<usize>, dtype: DType) -> bool {
    dims_fit(dims) && (rand_takes(dtype) ==> alloc_fits(
        c,
        thread,
        dims_product(dims) * dtype.size_in_bytes(),
    ))
}

/// The number of normal random numbers that are drawn, and of their bytes where they can be, fit
/// the machine.
pub open spec fn normal_fits(c: CaptureView, thread: u64, dims: Seq<usize>, dtype: DType) -> bool {
    let count = even_count(dims_product(dims) as int);
    dims_fit(dims) && count <= usize::MAX && (rand_takes(dtype) ==> alloc_fits(
        c,
        thread,
        count * dtype.size_in_bytes(),
    ))
}

/// A host tensor that is copied to a device as it is.
#[derive(Clone, Copy, Debug, PartialEq, Eq, Structural)]
pub struct Upload {
    /// The device that the elements go to.
    pub device: DeviceId,
    /// Element type, on the host as on the device.
    pub dtype: DType,
    /// Number of elements.
    pub len: usize,
}

/// What `op` makes of a host tensor of `len` elements on a device.
pub open spec fn upload_result(device: DeviceId, dtype: DType, len: usize, op: Op) -> Result<
    Upload,
    ErrorOf<Seq<usize>>,
> {
    if dtype.is_dummy() {
        Err(ErrorOf::UnsupportedDType { dtype, op })
    } else {
        Ok(Upload { device, dtype, len })
    }
}

/// A refused or accepted host tensor, as a mathematical value.
pub open spec fn result_host(r: Result<Upload, Error>) -> Result<Upload, ErrorOf<Seq<usize>>> {
    match r {
        Ok(u) => Ok(u),
        Err(e) => Err(e@),
    }
}

impl ModuleStore {
    /// A store of `n` modules, none of them loaded.
    fn new(n: usize) -> (r: ModuleStore)
        ensures
            r@ == Seq::new(n as nat, |i: int| false),
    {
        let mut mdls: Vec<bool> = Vec::new();
        let mut i: usize = 0;
        while i < n
            invariant
                i <= n,
                mdls@ == Seq::new(i as nat, |j: int| false),
            decreases n - i,
        {
            mdls.push(false);
            i = i + 1;
            assert(mdls@ =~= Seq::new(i as nat, |j: int| false));
        }
        ModuleStore { mdls }
    }
}

impl CudaDevice {
    /// What brings up device `ordinal` on its context's default stream.
    pub fn new(ordinal: usize) -> (r: Vec<InitStep>)
        ensures
            r@ == init_steps(ordinal),
    {
        let mut steps: Vec<InitStep> = Vec::new();
        steps.push(InitStep::CreateContext { ordinal });
        steps.push(InitStep::DefaultStream);
        steps.push(InitStep::CreateBlas);
        steps.push(InitStep::UploadOneZero);
        steps.push(InitStep::CreateRng { seed: DEFAULT_SEED });
        assert(steps@ =~= init_steps(ordinal));
        steps
    }

    /// What brings up device `ordinal` on a stream of its own.
    pub fn new_with_stream(ordinal: usize) -> (r: Vec<InitStep>)
        ensures
            r@ == init_steps_with_stream(ordinal),
    {
        let mut steps: Vec<InitStep> = Vec::new();
        steps.push(InitStep::CreateContext { ordinal });
        steps.push(InitStep::NewStream);
        steps.push(InitStep::DisableEventTracking);
        steps.push(InitStep::CreateBlas);
        steps.push(InitStep::UploadOneZero);
        steps.push(InitStep::CreateRng { seed: DEFAULT_SEED });
        assert(steps@ =~= init_steps_with_stream(ordinal));
        steps
    }

    /// The state of device `ordinal` once it has been brought up; it takes the next identifier.
    pub fn brought_up(ids: &mut DeviceIds, ordinal: usize, num_modules: usize) -> (r: CudaDevice)
        ensures
            r@ == new_device(r@.id, ordinal, num_modules as nat),
            r@.id.value() == old(ids).next_value(),
            r@.capture.wf(),
            final(ids).next_value() == count_on(old(ids).next_value() as int),
    {
        let r: CudaDevice = CudaDevice {
            id: DeviceId::new(ids),
            ordinal,
            modules: ModuleStore::new(num_modules),
            custom_modules: Vec::new(),
            stream_override: false,
            side_branch: false,
            device_pointer_mode_active: false,
            seed_value: DEFAULT_SEED,
            cublas_workspace: None,
            capture: CaptureState::new(),
        };
        assert(r@.custom =~= Set::<Seq<char>>::empty());
        r
    }

    /// The device's identifier.
    pub fn id(&self) -> (r: DeviceId)
        ensures
            r == self@.id,
    {
        self.id
    }

    /// Tells whether two handles are of one device.
    pub fn same_device(&self, rhs: &CudaDevice) -> (r: bool)
        ensures
            r == (self@.id == rhs@.id),
    {
        self.id.same(&rhs.id)
    }

    /// Where the device is.
    pub fn location(&self) -> (r: DeviceLocation)
        ensures
            r == (DeviceLocation::Cuda { gpu_id: self@.ordinal }),
    {
        DeviceLocation::Cuda { gpu_id: self.ordinal }
    }

    /// The device as it is shown.
    pub fn debug(&self) -> (r: String)
        ensures
            r@ == "CudaDevice("@ + ("DeviceId("@ + decimal(self@.id.value() as nat) + ")"@) + ")"@,
    {
        let mut out: String = String::new();
        out.append("CudaDevice(");
        let id: String = self.id.debug();
        out.append(id.as_str());
        out.append(")");
        assert(out@ =~= "CudaDevice("@ + ("DeviceId("@ + decimal(self@.id.value() as nat) + ")"@)
            + ")"@);
        out
    }

    /// Lets the random numbers start over from `seed`: takes what has happened, and says what has
    /// to happen next.
    pub fn set_seed(&mut self, seed: u64, event: SeedEvent) -> (r: SeedAction)
        ensures
            final(self)@ == seed_after(old(self)@, seed, event),
            r == seed_action(seed, event),
    {
        match event {
            SeedEvent::Start => SeedAction::CreateRng { seed },
            SeedEvent::Created { ok } => if ok {
                self.seed_value = seed;
                SeedAction::Done
            } else {
                SeedAction::Fail
            },
        }
    }

    /// The seed that the random numbers last started from.
    pub fn get_current_seed(&self) -> (r: u64)
        ensures
            r == self@.seed,
    {
        self.seed_value
    }

    /// Where work is issued right now.
    pub fn active_stream(&self) -> (r: ActiveStream)
        ensures
            r == if self@.on_side {
                ActiveStream::Side
            } else {
                ActiveStream::Main
            },
    {
        if self.stream_override {
            ActiveStream::Side
        } else {
            ActiveStream::Main
        }
    }

    /// The address of the stream where work is issued right now, of the two that the device has.
    pub fn active_stream_ptr(&self, main_ptr: usize, side_ptr: usize) -> (r: usize)
        ensures
            r == if self@.on_side {
                side_ptr
            } else {
                main_ptr
            },
    {
        match self.active_stream() {
            ActiveStream::Side => side_ptr,
            ActiveStream::Main => main_ptr,
        }
    }

    /// Moves work to the side stream, behind all that the main stream has been given: takes what
    /// has happened, and says what has to happen next. The side stream is created once.
    pub fn fork_side_branch(&mut self, event: ForkEvent) -> (r: ForkAction)
        ensures
            final(self)@ == fork_after(old(self)@, event),
            r == fork_action(old(self)@, event),
    {
        match event {
            ForkEvent::Start => if self.side_branch {
                ForkAction::Fence
            } else {
                ForkAction::Create
            },
            ForkEvent::Created { ok } => if ok {
                self.side_branch = true;
                ForkAction::Fence
            } else {
                ForkAction::Fail
            },
            ForkEvent::Fenced { ok } => if ok {
                self.stream_override = true;
                ForkAction::Done
            } else {
                ForkAction::Fail
            },
        }
    }

    /// Moves work back to the main stream, which does not wait for the side stream.
    pub fn pause_side_branch(&mut self)
        ensures
            final(self)@ == on_main(old(self)@),
    {
        self.stream_override = false;
    }

    /// Moves work back to the main stream, and tells whether the main stream has to wait for what
    /// the side stream has been given: it has to once there is a side stream.
    pub fn join_side_branch(&mut self) -> (r: bool)
        ensures
            final(self)@ == on_main(old(self)@),
            r == join_waits(old(self)@),
    {
        self.stream_override = false;
        self.side_branch
    }

    /// Runs work with coefficients in device memory: takes what has happened, and says what has to
    /// happen next.
    pub fn with_cublas_device_pointer_mode(&mut self, event: PointerEvent) -> (r: PointerAction)
        ensures
            final(self)@ == pointer_after(old(self)@, event),
            r == pointer_action(event),
    {
        match event {
            PointerEvent::Start => PointerAction::SetDevice,
            PointerEvent::DeviceSet { ok } => {
                self.device_pointer_mode_active = true;
                PointerAction::Run { warn: !ok }
            },
            PointerEvent::Ran => {
                self.device_pointer_mode_active = false;
                PointerAction::SetHost
            },
            PointerEvent::HostSet { ok } => PointerAction::Return { warn: !ok },
        }
    }

    /// Tells whether the matrix library reads its coefficients from device memory.
    pub fn device_pointer_mode(&self) -> (r: bool)
        ensures
            r == self@.device_pointers,
    {
        self.device_pointer_mode_active
    }

    /// Gives the matrix library a workspace of `bytes` bytes, unless it has one: takes what has
    /// happened, and says what has to happen next.
    pub fn ensure_cublas_workspace(&mut self, bytes: usize, event: WorkspaceSetEvent) -> (r:
        WorkspaceSetAction)
        ensures
            final(self)@ == workspace_set_after(old(self)@, bytes, event),
            r == workspace_set_action(old(self)@, bytes, event),
    {
        match event {
            WorkspaceSetEvent::Start => if self.cublas_workspace.is_some() {
                WorkspaceSetAction::Done
            } else {
                WorkspaceSetAction::AllocWorkspace { bytes }
            },
            WorkspaceSetEvent::Allocated { ok } => if ok {
                WorkspaceSetAction::SetWorkspace { bytes }
            } else {
                WorkspaceSetAction::Fail
            },
            WorkspaceSetEvent::Answered { status } => if status == 0 {
                self.cublas_workspace = Some(bytes);
                WorkspaceSetAction::Done
            } else {
                WorkspaceSetAction::Refused { status }
            },
        }
    }

    /// Says how a kernel of built-in module `index` is fetched.
    pub fn get_or_load_func(&self, index: usize) -> (r: FuncPlan)
        requires
            index < self@.modules.len(),
        ensures
            r == func_plan(self@, index as int),
    {
        if self.modules.mdls[index] {
            FuncPlan::FromLoaded
        } else {
            FuncPlan::LoadModule
        }
    }

    /// Takes note that built-in module `index` has been loaded.
    pub fn module_loaded(&mut self, index: usize)
        requires
            index < old(self)@.modules.len(),
        ensures
            final(self)@ == with_module(old(self)@, index as int),
    {
        self.modules.mdls[index] = true;
    }

    /// Says how a kernel of custom module `module_name` is fetched.
    pub fn get_or_load_custom_func(&self, module_name: &str) -> (r: FuncPlan)
        ensures
            r == custom_func_plan(self@, module_name@),
    {
        let mut i: usize = 0;
        while i < self.custom_modules.len()
            invariant
                i <= self.custom_modules@.len(),
                forall|j: int| 0 <= j < i ==> (#[trigger] self.custom_modules@[j])@ != module_name@,
            decreases self.custom_modules@.len() - i,
        {
            if str_eq(self.custom_modules[i].as_str(), module_name) {
                return FuncPlan::FromLoaded;
            }
            i = i + 1;
        }
        FuncPlan::LoadModule
    }

    /// Takes note that custom module `module_name` has been loaded.
    pub fn custom_module_loaded(&mut self, module_name: &str)
        ensures
            final(self)@ == with_custom_module(old(self)@, module_name@),
    {
        let ghost before = *self;
        self.custom_modules.push(module_name.to_owned());
        proof {
            let n = before.custom_modules@.len() as int;
            assert(self.custom_modules@[n]@ == module_name@);
            assert forall|name: Seq<char>| #[trigger]
                self@.custom.contains(name) <==> before@.custom.insert(module_name@).contains(
                    name,
                ) by {
                if before@.custom.contains(name) {
                    let i = choose|i: int|
                        0 <= i < n && (#[trigger] before.custom_modules@[i])@ == name;
                    assert(self.custom_modules@[i]@ == name);
                }
                if self@.custom.contains(name) {
                    let i = choose|i: int|
                        0 <= i < n + 1 && (#[trigger] self.custom_modules@[i])@ == name;
                    if i < n {
                        assert(before.custom_modules@[i]@ == name);
                    }
                }
            }
            assert(self@.custom =~= before@.custom.insert(module_name@));
        }
    }

    /// Tells whether a stream whose capture status was asked for is being captured. A status that
    /// could not be had counts as none.
    pub fn is_capturing(status: Option<StreamCapture>) -> (r: bool)
        ensures
            r == (status == Some(StreamCapture::Active)),
    {
        match status {
            Some(StreamCapture::Active) => true,
            _ => false,
        }
    }

    /// Says where a buffer of `len` elements of `elem_size` bytes on `thread` comes from.
    pub fn alloc_elems(&mut self, thread: u64, len: usize, elem_size: usize) -> (r: Result<
        AllocRoute,
        Error,
    >)
        requires
            old(self)@.capture.wf(),
            alloc_fits(old(self)@.capture, thread, len * elem_size),
        ensures
            final(self)@.capture.wf(),
            final(self)@ == (DeviceView {
                capture: alloc_after(old(self)@.capture, thread, len * elem_size),
                ..old(self)@
            }),
            result_route(r) == alloc_route(old(self)@.capture, thread, len * elem_size),
    {
        self.capture.route_alloc(thread, len, elem_size)
    }

    /// Says where a buffer of `len` zeros of `elem_size` bytes each on `thread` comes from, and
    /// whether it has to be cleared after it was taken.
    pub fn alloc_zeros(&mut self, thread: u64, len: usize, elem_size: usize) -> (r: Result<
        ZeroedRoute,
        Error,
    >)
        requires
            old(self)@.capture.wf(),
            alloc_fits(old(self)@.capture, thread, len * elem_size),
        ensures
            final(self)@.capture.wf(),
            final(self)@ == (DeviceView {
                capture: alloc_after(old(self)@.capture, thread, len * elem_size),
                ..old(self)@
            }),
            result_zeroed(r) == zeroed_route(old(self)@.capture, thread, len * elem_size),
    {
        match self.capture.route_alloc(thread, len, elem_size) {
            Ok(route) => Ok(ZeroedRoute { route, clear: route.needs_clearing() }),
            Err(e) => Err(e),
        }
    }

    /// Tells whether the size of a request can be looked at on this machine.
    pub fn alloc_size_fits(&self, thread: u64, len: usize, elem_size: usize) -> (r: bool)
        ensures
            r == alloc_fits(self@.capture, thread, len * elem_size),
    {
        self.capture.alloc_size_fits(thread, len, elem_size)
    }

    /// Says how an upload of `len` words of metadata on `thread` reaches the device.
    pub fn clone_htod_capture_safe(&mut self, thread: u64, len: usize) -> (r: Result<
        UploadRoute,
        Error,
    >)
        requires
            old(self)@.capture.wf(),
        ensures
            final(self)@.capture.wf(),
            final(self)@ == (DeviceView {
                capture: upload_after(old(self)@.capture, thread),
                ..old(self)@
            }),
            result_upload(r) == upload_route(old(self)@.capture, thread, len),
    {
        self.capture.clone_htod_capture_safe(thread, len)
    }

    /// Keeps the staging buffer of `len` words that a dry run's upload went through.
    pub fn stage_pinned(&mut self, len: usize)
        requires
            old(self)@.capture.wf(),
            old(self)@.capture.mode is Measuring,
        ensures
            final(self)@.capture.wf(),
            final(self)@ == (DeviceView {
                capture: staged(old(self)@.capture, len),
                ..old(self)@
            }),
    {
        self.capture.stage_pinned(len)
    }

    /// The sizes that the last dry run measured and the lengths of the staging buffers.
    pub fn capture_arena_plan(&self) -> (r: (Vec<usize>, Vec<usize>))
        ensures
            r.0@ == self@.capture.measured,
            r.1@ == self@.capture.pool,
    {
        self.capture.capture_arena_plan()
    }

    /// The capture state.
    pub fn capture(&self) -> (r: &CaptureState)
        ensures
            r@ == self@.capture,
    {
        &self.capture
    }

    /// Drives a capture window that begins with a dry run.
    pub fn with_capture_arena(&mut self, event: CaptureEvent) -> (r: CaptureAction)
        requires
            old(self)@.capture.wf(),
            capture_takes(old(self)@.capture, event),
        ensures
            final(self)@.capture.wf(),
            final(self)@ == (DeviceView {
                capture: capture_after(old(self)@.capture, event),
                ..old(self)@
            }),
            r == capture_action(old(self)@.capture, event),
    {
        self.capture.with_capture_arena(event)
    }

    /// Drives a capture window that is sized by an earlier one.
    pub fn with_capture_arena_presized(&mut self, event: PresizedEvent) -> (r: CaptureAction)
        requires
            old(self)@.capture.wf(),
            presized_takes(old(self)@.capture, event),
        ensures
            final(self)@.capture.wf(),
            final(self)@ == (DeviceView {
                capture: presized_after(old(self)@.capture, event),
                ..old(self)@
            }),
            r == presized_action(old(self)@.capture, event),
    {
        self.capture.with_capture_arena_presized(event)
    }

    /// Tells whether the sizes of a tensor fit the machine.
    pub fn tensor_size_fits(&self, thread: u64, dims: &[usize], dtype: DType) -> (r: bool)
        ensures
            r == tensor_fits(self@.capture, thread, dims@, dtype),
    {
        elem_count_fits(dims) && (dtype.is_dummy() || self.alloc_size_fits(
            thread,
            elem_count(dims),
            dtype.size_in_bytes(),
        ))
    }

    /// Tells whether the sizes of uniform random numbers fit the machine.
    pub fn rand_uniform_size_fits(&self, thread: u64, dims: &[usize], dtype: DType) -> (r: bool)
        ensures
            r == uniform_fits(self@.capture, thread, dims@, dtype),
    {
        elem_count_fits(dims) && (!matches!(dtype, DType::F32 | DType::F64)
            || self.alloc_size_fits(thread, elem_count(dims), dtype.size_in_bytes()))
    }

    /// Tells whether the sizes of normal random numbers fit the machine.
    pub fn rand_normal_size_fits(&self, thread: u64, dims: &[usize], dtype: DType) -> (r: bool)
        ensures
            r == normal_fits(self@.capture, thread, dims@, dtype),
    {
        if !elem_count_fits(dims) {
            return false;
        }
        let len: usize = elem_count(dims);
        let rounded: usize = match len.checked_add(len % 2) {
            Some(rounded) => rounded,
            None => return false,
        };
        !matches!(dtype, DType::F32 | DType::F64) || self.alloc_size_fits(
            thread,
            rounded,
            dtype.size_in_bytes(),
        )
    }

    fn buffer(&mut self, thread: u64, dtype: DType, len: usize, zeroed: bool) -> (r: Result<
        Allocation,
        Error,
    >)
        requires
            old(self)@.capture.wf(),
            alloc_fits(old(self)@.capture, thread, len * dtype.size_in_bytes()),
        ensures
            final(self)@.capture.wf(),
            final(self)@ == buffer_after(old(self)@, thread, dtype, len as int),
            result_buffer(r) == buffer_result(
                old(self)@,
                thread,
                dtype,
                len as int,
                zeroed,
            ),
    {
        let device: DeviceId = self.id;
        if zeroed {
            match self.alloc_zeros(thread, len, dtype.size_in_bytes()) {
                Ok(z) => Ok(
                    Allocation { device, route: z.route, dtype, len, zeroed, clear: z.clear },
                ),
                Err(e) => Err(e),
            }
        } else {
            match self.alloc_elems(thread, len, dtype.size_in_bytes()) {
                Ok(route) => Ok(Allocation { device, route, dtype, len, zeroed, clear: false }),
                Err(e) => Err(e),
            }
        }
    }

    /// Grants a zeroed tensor of the given dimensions on `thread`.
    pub fn zeros_impl(&mut self, thread: u64, dims: &[usize], dtype: DType) -> (r: Result<
        Allocation,
        Error,
    >)
        requires
            old(self)@.capture.wf(),
            tensor_fits(old(self)@.capture, thread, dims@, dtype),
        ensures
            final(self)@.capture.wf(),
            dtype.is_dummy() ==> final(self)@ == old(self)@ && result_buffer(r) == Err::<
                Allocation,
                ErrorOf<Seq<usize>>,
            >(ErrorOf::DummyDType),
            !dtype.is_dummy() ==> final(self)@ == buffer_after(
                old(self)@,
                thread,
                dtype,
                dims_product(dims@) as int,
            ) && result_buffer(r) == buffer_result(
                old(self)@,
                thread,
                dtype,
                dims_product(dims@) as int,
                true,
            ),
    {
        let len: usize = elem_count(dims);
        if dtype.is_dummy() {
            return Err(ErrorOf::DummyDType);
        }
        self.buffer(thread, dtype, len, true)
    }

    /// Grants a tensor of the given dimensions on `thread` whose elements are not set.
    pub fn alloc_uninit(&mut self, thread: u64, dims: &[usize], dtype: DType) -> (r: Result<
        Allocation,
        Error,
    >)
        requires
            old(self)@.capture.wf(),
            tensor_fits(old(self)@.capture, thread, dims@, dtype),
        ensures
            final(self)@.capture.wf(),
            dtype.is_dummy() ==> final(self)@ == old(self)@ && result_buffer(r) == Err::<
                Allocation,
                ErrorOf<Seq<usize>>,
            >(ErrorOf::DummyDType),
            !dtype.is_dummy() ==> final(self)@ == buffer_after(
                old(self)@,
                thread,
                dtype,
                dims_product(dims@) as int,
            ) && result_buffer(r) == buffer_result(
                old(self)@,
                thread,
                dtype,
                dims_product(dims@) as int,
                false,
            ),
    {
        let len: usize = elem_count(dims);
        if dtype.is_dummy() {
            return Err(ErrorOf::DummyDType);
        }
        self.buffer(thread, dtype, len, false)
    }

    /// Draws uniform random numbers of the given dimensions on `thread`: takes what has happened,
    /// and says what has to happen next. Numbers off the unit interval take a second buffer.
    pub fn rand_uniform(
        &mut self,
        thread: u64,
        dims: &[usize],
        dtype: DType,
        unit_interval: bool,
        event: UniformEvent,
    ) -> (r: Result<UniformAction, Error>)
        requires
            old(self)@.capture.wf(),
            event is Filled ==> rand_takes(dtype),
            uniform_fits(old(self)@.capture, thread, dims@, dtype),
        ensures
            final(self)@.capture.wf(),
            final(self)@ == uniform_after(
                old(self)@,
                thread,
                dtype,
                dims_product(dims@) as int,
                unit_interval,
                event,
            ),
            result_uniform(r) == uniform_action(
                old(self)@,
                thread,
                dtype,
                dims_product(dims@) as int,
                unit_interval,
                event,
            ),
    {
        let len: usize = elem_count(dims);
        match event {
            UniformEvent::Start => match dtype {
                DType::F32 | DType::F64 => {
                    match self.buffer(thread, dtype, len, false) {
                        Ok(buffer) => Ok(UniformAction::Fill { buffer }),
                        Err(e) => Err(e),
                    }
                },
                _ => Err(ErrorOf::UnsupportedDType { dtype, op: Op::RandUniform }),
            },
            UniformEvent::Filled { ok } => if !ok {
                Ok(UniformAction::Fail)
            } else if unit_interval {
                Ok(UniformAction::Done)
            } else {
                match self.buffer(thread, dtype, len, false) {
                    Ok(into) => Ok(UniformAction::Scale { into }),
                    Err(e) => Err(e),
                }
            },
        }
    }

    /// Grants the buffer for normal random numbers of the given dimensions on `thread`, with one
    /// element more where their number is odd.
    pub fn rand_normal(&mut self, thread: u64, dims: &[usize], dtype: DType) -> (r: Result<
        Allocation,
        Error,
    >)
        requires
            old(self)@.capture.wf(),
            normal_fits(old(self)@.capture, thread, dims@, dtype),
        ensures
            final(self)@.capture.wf(),
            !rand_takes(dtype) ==> final(self)@ == old(self)@ && result_buffer(r) == Err::<
                Allocation,
                ErrorOf<Seq<usize>>,
            >(ErrorOf::UnsupportedDType { dtype, op: Op::RandNormal }),
            rand_takes(dtype) ==> final(self)@ == buffer_after(
                old(self)@,
                thread,
                dtype,
                even_count(dims_product(dims@) as int),
            ) && result_buffer(r) == buffer_result(
                old(self)@,
                thread,
                dtype,
                even_count(dims_product(dims@) as int),
                false,
            ),
    {
        let len: usize = elem_count(dims);
        let rounded: usize = if len % 2 == 1 {
            len + 1
        } else {
            len
        };
        match dtype {
            DType::F32 | DType::F64 => self.buffer(thread, dtype, rounded, false),
            _ => Err(ErrorOf::UnsupportedDType { dtype, op: Op::RandNormal }),
        }
    }
}

/// What a stream's capture status says.
#[derive(Clone, Copy, Debug, PartialEq, Eq, Structural)]
pub enum StreamCapture {
    /// The stream is not being captured.
    Inactive,
    /// The stream is being captured.
    Active,
    /// The stream was being captured, and the capture has failed.
    Invalidated,
}

impl CudaDevice {
    fn upload(&self, dtype: DType, len: usize, op: Op) -> (r: Result<Upload, Error>)
        ensures
            result_host(r) == upload_result(self@.id, dtype, len, op),
    {
        if dtype.is_dummy() {
            Err(ErrorOf::UnsupportedDType { dtype, op })
        } else {
            Ok(Upload { device: self.id, dtype, len })
        }
    }

    /// Says what is uploaded of a slice of `len` host elements.
    pub fn storage_from_slice(&self, dtype: DType, len: usize) -> (r: Result<Upload, Error>)
        ensures
            result_host(r) == upload_result(self@.id, dtype, len, Op::StorageFromSlice),
    {
        self.upload(dtype, len, Op::StorageFromSlice)
    }

    /// Says what is uploaded of a borrowed host tensor of `len` elements.
    pub fn storage_from_cpu_storage(&self, dtype: DType, len: usize) -> (r: Result<Upload, Error>)
        ensures
            result_host(r) == upload_result(self@.id, dtype, len, Op::StorageFromCpuStorage),
    {
        self.upload(dtype, len, Op::StorageFromCpuStorage)
    }

    /// Says what is uploaded of an owned host tensor of `len` elements.
    pub fn storage_from_cpu_storage_owned(&self, dtype: DType, len: usize) -> (r: Result<
        Upload,
        Error,
    >)
        ensures
            result_host(r) == upload_result(self@.id, dtype, len, Op::StorageFromCpuStorageOwned),
    {
        self.upload(dtype, len, Op::StorageFromCpuStorageOwned)
    }
}

/// A fork whose steps succeed creates the side stream unless there is one, and ends with work going
/// to the side stream. A later fork creates nothing.
pub proof fn law_fork_moves_work(d: DeviceView)
    ensures
        ({
            let created = if d.side_exists {
                d
            } else {
                fork_after(d, ForkEvent::Created { ok: true })
            };
            let forked = fork_after(created, ForkEvent::Fenced { ok: true });
            &&& fork_action(d, ForkEvent::Start) is Create <==> !d.side_exists
            &&& fork_action(created, ForkEvent::Fenced { ok: true }) is Done
            &&& forked == (DeviceView { on_side: true, side_exists: true, ..d })
            &&& fork_action(forked, ForkEvent::Start) is Fence
        }),
{
}

/// A fork that fails leaves work where it was.
pub proof fn law_failed_fork_changes_nothing(d: DeviceView, event: ForkEvent)
    requires
        fork_action(d, event) is Fail,
    ensures
        fork_after(d, event) == d,
{
}

/// While the work runs coefficients are in device memory, and they never are outside of it:
/// whether or not the switches succeed.
pub proof fn law_pointer_mode_is_scoped(d: DeviceView, event: PointerEvent)
    ensures
        pointer_action(event) is Run ==> pointer_after(d, event).device_pointers,
        pointer_action(event) is SetHost ==> !pointer_after(d, event).device_pointers,
        pointer_action(event) is Return ==> pointer_after(d, event) == d,
{
}

/// Once there is a workspace, asking for one again, of whatever size, does nothing.
pub proof fn law_workspace_is_set_once(d: DeviceView, bytes: usize, again: usize)
    ensures
        ({
            let set_up = workspace_set_after(d, bytes, WorkspaceSetEvent::Answered { status: 0 });
            &&& set_up.workspace == Some(bytes)
            &&& workspace_set_action(set_up, again, WorkspaceSetEvent::Start) is Done
            &&& workspace_set_after(set_up, again, WorkspaceSetEvent::Start) == set_up
        }),
{
}

/// Normal numbers are drawn in an even count, which is the least that suffices.
pub proof fn law_normal_count_is_even(n: int)
    requires
        n >= 0,
    ensures
        even_count(n) % 2 == 0,
        n <= even_count(n) <= n + 1,
{
}

/// An owned host tensor is uploaded just as a borrowed one or a slice is: with its own element type
/// and length, to the device that was asked. The packed types are refused, by each function under
/// its own name.
pub proof fn law_uploads_agree(device: DeviceId, dtype: DType, len: usize)
    ensures
        ({
            let slice = upload_result(device, dtype, len, Op::StorageFromSlice);
            let borrowed = upload_result(device, dtype, len, Op::StorageFromCpuStorage);
            let owned = upload_result(device, dtype, len, Op::StorageFromCpuStorageOwned);
            if dtype is F4 || dtype is F6E2M3 || dtype is F6E3M2 || dtype is F8E8M0 {
                &&& slice == Err::<Upload, ErrorOf<Seq<usize>>>(
                    ErrorOf::UnsupportedDType { dtype, op: Op::StorageFromSlice },
                )
                &&& borrowed == Err::<Upload, ErrorOf<Seq<usize>>>(
                    ErrorOf::UnsupportedDType { dtype, op: Op::StorageFromCpuStorage },
                )
                &&& owned == Err::<Upload, ErrorOf<Seq<usize>>>(
                    ErrorOf::UnsupportedDType { dtype, op: Op::StorageFromCpuStorageOwned },
                )
            } else {
                &&& owned == Ok::<Upload, ErrorOf<Seq<usize>>>(Upload { device, dtype, len })
                &&& borrowed == owned
                &&& slice == owned
            }
        }),
{
}

/// Starting over creates a new generator, at the beginning of the seed's sequence whatever was drawn
/// before. The seed that reads back is the new one where that succeeds, and nothing changes where it
/// fails.
pub proof fn law_seed_reads_back(d: DeviceView, seed: u64)
    ensures
        seed_action(seed, SeedEvent::Start) == (SeedAction::CreateRng { seed }),
        seed_after(d, seed, SeedEvent::Start) == d,
        seed_after(d, seed, SeedEvent::Created { ok: true }) == (DeviceView { seed, ..d }),
        seed_action(seed, SeedEvent::Created { ok: true }) is Done,
        seed_after(d, seed, SeedEvent::Created { ok: false }) == d,
        seed_action(seed, SeedEvent::Created { ok: false }) is Fail,
{
}

/// Drawing uniform numbers takes one buffer on the unit interval and two of the same size off it:
/// in a dry run that many sizes are recorded.
pub proof fn law_scaled_numbers_take_two_buffers(
    d: DeviceView,
    thread: u64,
    dtype: DType,
    len: int,
    unit_interval: bool,
)
    requires
        rand_takes(dtype),
    ensures
        ({
            let bytes = len * dtype.size_in_bytes();
            let filled = UniformEvent::Filled { ok: true };
            let drawn = uniform_after(
                d,
                thread,
                dtype,
                len,
                unit_interval,
                UniformEvent::Start,
            );
            let done = uniform_after(drawn, thread, dtype, len, unit_interval, filled);
            &&& drawn == buffer_after(d, thread, dtype, len)
            &&& done == if unit_interval {
                drawn
            } else {
                buffer_after(drawn, thread, dtype, len)
            }
            &&& uniform_after(
                drawn,
                thread,
                dtype,
                len,
                unit_interval,
                UniformEvent::Filled { ok: false },
            ) == drawn
            &&& d.capture.mode is Measuring && d.capture.owned_by(thread) ==> done.capture.measured
                == if unit_interval {
                d.capture.measured.push(bytes as usize)
            } else {
                d.capture.measured.push(bytes as usize).push(bytes as usize)
            }
        }),
{
}

/// A buffer that has to hold zeros is cleared where it comes from the arena, and only there.
pub proof fn law_arena_memory_is_cleared(
    d: DeviceView,
    thread: u64,
    dtype: DType,
    len: int,
    zeroed: bool,
)
    ensures
        buffer_result(d, thread, dtype, len, zeroed) matches Ok(a) ==> a.clear == (zeroed
            && a.route is Arena),
        zeroed_route(d.capture, thread, len * dtype.size_in_bytes()) matches Ok(z) ==> z.clear
            == z.route is Arena,
{
}

/// A tensor that is granted is on the device that was asked, with the element type and the number
/// of elements that were asked for. On the capturing thread a dry run records its bytes and a
/// capture finds room for them in the arena; elsewhere nothing is recorded. Only the capture state
/// changes.
pub proof fn law_grant_describes_tensor(
    d: DeviceView,
    thread: u64,
    dtype: DType,
    len: usize,
    zeroed: bool,
)
    requires
        d.capture.wf(),
        len * dtype.size_in_bytes() <= usize::MAX,
    ensures
        ({
            let bytes = len * dtype.size_in_bytes();
            let after = buffer_after(d, thread, dtype, len as int);
            let owned = d.capture.owned_by(thread);
            &&& after == (DeviceView { capture: after.capture, ..d })
            &&& match buffer_result(d, thread, dtype, len as int, zeroed) {
                Ok(a) => {
                    &&& a.device == d.id
                    &&& a.dtype == dtype
                    &&& a.len == len
                    &&& a.zeroed == zeroed
                    &&& match a.route {
                        AllocRoute::Gated => {
                            &&& !owned || d.capture.mode is Normal
                            &&& after.capture == d.capture
                        },
                        AllocRoute::Direct => {
                            &&& owned && d.capture.mode is Measuring
                            &&& after.capture.measured == d.capture.measured.push(bytes as usize)
                        },
                        AllocRoute::Arena { base_ptr, offset } => {
                            &&& owned && d.capture.mode is Arena
                            &&& base_ptr == d.capture.arena->0.base_ptr
                            &&& offset + bytes <= d.capture.arena->0.total_bytes
                            &&& after.capture.measured == d.capture.measured
                        },
                    }
                },
                Err(e) => owned && d.capture.mode is Arena && e is ArenaExhausted,
            }
        }),
{
    assert(0 <= len * dtype.size_in_bytes()) by (nonlinear_arith);
}

/// Random numbers are drawn in F32 and F64 and in nothing else.
pub proof fn law_random_types(
    d: DeviceView,
    thread: u64,
    dtype: DType,
    len: int,
    unit_interval: bool,
)
    ensures
        rand_takes(dtype) <==> dtype == DType::F32 || dtype == DType::F64,
        !(dtype is F32 || dtype is F64) ==> uniform_action(
            d,
            thread,
            dtype,
            len,
            unit_interval,
            UniformEvent::Start,
        ) == Err::<UniformAction, ErrorOf<Seq<usize>>>(
            ErrorOf::UnsupportedDType { dtype, op: Op::RandUniform },
        ) && uniform_after(d, thread, dtype, len, unit_interval, UniformEvent::Start) == d,
{
}

/// Uniform numbers that are scaled go into a buffer just like the one that they were drawn into:
/// same device, same type, same number of elements.
pub proof fn law_scaled_buffer_matches(
    d: DeviceView,
    thread: u64,
    dtype: DType,
    len: usize,
    unit_interval: bool,
)
    requires
        rand_takes(dtype),
    ensures
        ({
            let filled = UniformEvent::Filled { ok: true };
            &&& match uniform_action(
                d,
                thread,
                dtype,
                len as int,
                unit_interval,
                UniformEvent::Start,
            ) {
                Ok(UniformAction::Fill { buffer }) => buffer.device == d.id && buffer.dtype == dtype
                    && buffer.len == len && !buffer.zeroed,
                Ok(_) => false,
                Err(e) => e is ArenaExhausted,
            }
            &&& match uniform_action(d, thread, dtype, len as int, unit_interval, filled) {
                Ok(UniformAction::Scale { into }) => !unit_interval && into.device == d.id
                    && into.dtype == dtype && into.len == len && !into.zeroed,
                Ok(action) => unit_interval && action is Done,
                Err(e) => !unit_interval && e is ArenaExhausted,
            }
        }),
{
}

/// A new device has the seed and the state that its bring-up gives it: nothing loaded, nothing
/// captured, work on the main stream, coefficients on the host. Its generator is created last, from
/// the seed that reads back.
pub proof fn law_new_device_is_idle(
    id: DeviceId,
    ordinal: usize,
    num_modules: nat,
    index: int,
    name: Seq<char>,
    thread: u64,
)
    requires
        0 <= index < num_modules,
    ensures
        ({
            let d = new_device(id, ordinal, num_modules);
            &&& d.id == id
            &&& d.ordinal == ordinal
            &&& d.modules.len() == num_modules
            &&& !d.modules[index]
            &&& !d.custom.contains(name)
            &&& !d.on_side && !d.side_exists && !d.device_pointers
            &&& d.workspace is None
            &&& d.capture.wf()
            &&& !d.capture.owned_by(thread)
            &&& d.seed == 299792458
            &&& init_steps(ordinal).last() == (InitStep::CreateRng { seed: d.seed })
            &&& init_steps_with_stream(ordinal).last() == (InitStep::CreateRng { seed: d.seed })
            &&& init_steps(ordinal).first() == (InitStep::CreateContext { ordinal })
            &&& init_steps_with_stream(ordinal).first() == (InitStep::CreateContext { ordinal })
            &&& init_steps_with_stream(ordinal).contains(InitStep::DisableEventTracking)
            &&& !init_steps(ordinal).contains(InitStep::DisableEventTracking)
        }),
{
    assert(init_steps_with_stream(ordinal)[2] == InitStep::DisableEventTracking);
}

/// The workspace that the matrix library is given has the size that was asked for; where it could
/// not be allocated, or was refused, there is none.
pub proof fn law_workspace_set_in_order(d: DeviceView, bytes: usize, status: u32)
    requires
        d.workspace is None,
    ensures
        workspace_set_action(d, bytes, WorkspaceSetEvent::Start)
            == (WorkspaceSetAction::AllocWorkspace { bytes }),
        workspace_set_action(d, bytes, WorkspaceSetEvent::Allocated { ok: true })
            == (WorkspaceSetAction::SetWorkspace { bytes }),
        workspace_set_action(d, bytes, WorkspaceSetEvent::Allocated { ok: false }) is Fail,
        workspace_set_after(d, bytes, WorkspaceSetEvent::Allocated { ok: false }) == d,
        status != 0 ==> workspace_set_after(d, bytes, WorkspaceSetEvent::Answered { status }) == d
            && workspace_set_action(d, bytes, WorkspaceSetEvent::Answered { status })
            == (WorkspaceSetAction::Refused { status }),
{
}

/// Work is run with coefficients in device memory between the two switches, in this order; a switch
/// that failed is warned about, and stops nothing. Nothing else of the device changes.
pub proof fn law_pointer_mode_in_order(d: DeviceView, ok: bool)
    ensures
        pointer_action(PointerEvent::Start) is SetDevice,
        pointer_after(d, PointerEvent::Start) == d,
        pointer_action(PointerEvent::DeviceSet { ok }) == (PointerAction::Run { warn: !ok }),
        pointer_after(d, PointerEvent::DeviceSet { ok }) == (DeviceView {
            device_pointers: true,
            ..d
        }),
        pointer_action(PointerEvent::Ran) is SetHost,
        pointer_after(d, PointerEvent::Ran) == (DeviceView { device_pointers: false, ..d }),
        pointer_action(PointerEvent::HostSet { ok }) == (PointerAction::Return { warn: !ok }),
{
}

/// Tensors and random numbers of ordinary size fit in any state: where the shape does and the bytes,
/// with one element more and room for alignment, stay within what the machine addresses.
pub proof fn law_ordinary_tensor_fits(
    c: CaptureView,
    thread: u64,
    dims: Seq<usize>,
    dtype: DType,
)
    requires
        dims_fit(dims),
        (dims_product(dims) + 1) * dtype.size_in_bytes() + 255 <= usize::MAX,
        dims_product(dims) < usize::MAX,
    ensures
        tensor_fits(c, thread, dims, dtype),
        uniform_fits(c, thread, dims, dtype),
        normal_fits(c, thread, dims, dtype),
{
    let n = dims_product(dims) as int;
    let size = dtype.size_in_bytes() as int;
    assert(n * size <= (n + 1) * size) by (nonlinear_arith)
        requires
            size >= 0,
    ;
}

/// A module is loaded once: its kernels come from it from then on, and all other modules are fetched
/// as before, the built-in ones and the custom ones alike.
pub proof fn law_modules_load_once(
    d: DeviceView,
    index: int,
    other: int,
    name: Seq<char>,
    other_name: Seq<char>,
)
    requires
        0 <= index < d.modules.len(),
        0 <= other < d.modules.len(),
        other != index,
        other_name != name,
    ensures
        ({
            let built_in = with_module(d, index);
            let custom = with_custom_module(d, name);
            &&& func_plan(built_in, index) is FromLoaded
            &&& func_plan(built_in, other) == func_plan(d, other)
            &&& custom_func_plan(built_in, name) == custom_func_plan(d, name)
            &&& built_in == (DeviceView { modules: built_in.modules, ..d })
            &&& built_in.modules.len() == d.modules.len()
            &&& custom_func_plan(custom, name) is FromLoaded
            &&& custom_func_plan(custom, other_name) == custom_func_plan(d, other_name)
            &&& func_plan(custom, index) == func_plan(d, index)
            &&& custom == (DeviceView { custom: custom.custom, ..d })
        }),
{
}

/// The kernels of a module that has not been loaded are fetched by loading it.
pub proof fn law_new_modules_are_loaded(
    id: DeviceId,
    ordinal: usize,
    num_modules: nat,
    index: int,
    name: Seq<char>,
)
    requires
        0 <= index < num_modules,
    ensures
        func_plan(new_device(id, ordinal, num_modules), index) is LoadModule,
        custom_func_plan(new_device(id, ordinal, num_modules), name) is LoadModule,
{
}

/// Joining undoes a fork but for the side stream, which stays: work goes to the main stream again,
/// which waits for the side stream once there is one. Joining without a fork changes nothing.
pub proof fn law_join_undoes_fork(d: DeviceView)
    requires
        !d.on_side,
    ensures
        ({
            let created = if d.side_exists {
                d
            } else {
                fork_after(d, ForkEvent::Created { ok: true })
            };
            let forked = fork_after(created, ForkEvent::Fenced { ok: true });
            &&& forked.on_side
            &&& on_main(forked) == created
            &&& join_waits(forked)
            &&& join_waits(on_main(forked))
            &&& on_main(d) == d
            &&& join_waits(d) <==> d.side_exists
        }),
{
}

/// A fork creates the side stream where there is none, fences it, and then moves work to it, in this
/// order; a step that fails ends it. Nothing changes before a step has succeeded.
pub proof fn law_fork_in_order(d: DeviceView, ok: bool)
    ensures
        fork_action(d, ForkEvent::Start) == if d.side_exists {
            ForkAction::Fence
        } else {
            ForkAction::Create
        },
        fork_after(d, ForkEvent::Start) == d,
        fork_action(d, ForkEvent::Created { ok }) == if ok {
            ForkAction::Fence
        } else {
            ForkAction::Fail
        },
        fork_after(d, ForkEvent::Created { ok: true }) == (DeviceView { side_exists: true, ..d }),
        fork_action(d, ForkEvent::Fenced { ok }) == if ok {
            ForkAction::Done
        } else {
            ForkAction::Fail
        },
        fork_after(d, ForkEvent::Fenced { ok: true }) == (DeviceView { on_side: true, ..d }),
{
}

/// Drawing that fails ends there: no second buffer is asked for.
pub proof fn law_failed_draw_asks_no_more(
    d: DeviceView,
    thread: u64,
    dtype: DType,
    len: int,
    unit_interval: bool,
)
    ensures
        uniform_action(
            d,
            thread,
            dtype,
            len,
            unit_interval,
            UniformEvent::Filled { ok: false },
        ) == Ok::<UniformAction, ErrorOf<Seq<usize>>>(UniformAction::Fail),
        uniform_after(
            d,
            thread,
            dtype,
            len,
            unit_interval,
            UniformEvent::Filled { ok: false },
        ) == d,
{
}

} // verus!
