//! Choice of the kernel tier and launch geometry of an expert layer.

use crate::arith::ceil_div_u32;
use crate::arith::ceil_quot;
use crate::arith::lemma_ceil_quot;
use crate::dtype::GgmlDType;
use crate::launch::Kernel;
use crate::launch::LaunchConfig;
use crate::launch::WARP_SIZE;
use crate::text::decimal;
use crate::text::is_digit;
use crate::text::law_decimal_reads_back;
use crate::text::parse_unsigned;
use crate::text::str_eq;
use crate::text::unsigned_part;
use crate::text::unsigned_value;
use vstd::prelude::*;

verus! {

/// From this many tasks on, the tiled tier is taken by default.
pub const MOE_DEFAULT_MIN_TASKS: usize = 1024;

/// Entries of the task list that the tiled and tensor-core kernels share within a block.
pub const MOE_MAX_TASKS: usize = 1024;

/// The tensor-core and grouped tiers need more tasks than this.
pub const MOE_SMALL_TASKS: usize = 32;

/// The raw operator settings that steer an expert layer.
#[derive(Clone, Copy)]
pub struct MoeEnv<'a> {
    /// Override of the tiled tier, empty when unset.
    pub grouped: &'a str,
    /// Override of the task count from which the tiled tier is taken.
    pub min_tasks: Option<&'a str>,
    /// Selects the tensor-core tier when not empty.
    pub mma: &'a str,
    /// Row tile of the tiled tier.
    pub geom: Option<&'a str>,
    /// Column stride of the tiled tier.
    pub col_stride: Option<&'a str>,
    /// Column stride of the tensor-core tier.
    pub mma_col_stride: Option<&'a str>,
    /// Asks for operand checksums ahead of a tensor-core launch when not empty.
    pub checksum: &'a str,
}

/// The text of an optional setting.
pub open spec fn setting_text(raw: Option<&str>) -> Option<Seq<char>> {
    match raw {
        Some(s) => Some(s@),
        None => None,
    }
}

/// The texts of `keys`.
pub open spec fn key_texts(keys: Seq<&str>) -> Seq<Seq<char>> {
    Seq::new(keys.len(), |i: int| keys[i]@)
}

/// The task count from which the tiled tier is taken: the override where it is a positive number,
/// the default otherwise.
pub open spec fn min_tasks(raw: Option<Seq<char>>) -> nat {
    match raw {
        Some(s) => match unsigned_value(s, usize::MAX as int) {
            Some(v) => if v >= 1 {
                v
            } else {
                MOE_DEFAULT_MIN_TASKS as nat
            },
            None => MOE_DEFAULT_MIN_TASKS as nat,
        },
        None => MOE_DEFAULT_MIN_TASKS as nat,
    }
}

/// Resolves the task count from which the tiled tier is taken. An override that is not a positive
/// number counts as unset.
pub fn moe_grouped_min_tasks_from_raw(raw: Option<&str>) -> (r: usize)
    ensures
        r == min_tasks(setting_text(raw)),
        r >= 1,
{
    match raw {
        Some(s) => {
            match parse_unsigned(s, usize::MAX) {
                Some(v) => {
                    if v >= 1 {
                        v
                    } else {
                        MOE_DEFAULT_MIN_TASKS
                    }
                },
                None => MOE_DEFAULT_MIN_TASKS,
            }
        },
        None => MOE_DEFAULT_MIN_TASKS,
    }
}

/// Whether the tiled tier takes a block format whose own key is `key`, under the override `env`.
/// Unset and unrecognized overrides leave it to `gate`; `"0"` turns the tier off and `"1"` on; a
/// format's own key turns it on and the key of another format turns it off.
pub open spec fn dtype_eligible(
    env: Seq<char>,
    gate: bool,
    key: Seq<char>,
    others: Seq<Seq<char>>,
) -> bool {
    if env == ""@ {
        gate
    } else if env == "0"@ {
        false
    } else if env == "1"@ || env == key {
        true
    } else if others.contains(env) {
        false
    } else {
        gate
    }
}

/// Resolves the override `env` of the tiled tier for one block format.
pub fn mmq_dtype_eligible(
    env: &str,
    task_count_gate: bool,
    this_dtype_key: &str,
    other_dtype_keys: &[&str],
) -> (r: bool)
    ensures
        r == dtype_eligible(env@, task_count_gate, this_dtype_key@, key_texts(other_dtype_keys@)),
{
    if str_eq(env, "") {
        return task_count_gate;
    }
    if str_eq(env, "0") {
        return false;
    }
    if str_eq(env, "1") || str_eq(env, this_dtype_key) {
        return true;
    }
    let ghost texts = key_texts(other_dtype_keys@);
    let mut i: usize = 0;
    while i < other_dtype_keys.len()
        invariant
            i <= other_dtype_keys@.len(),
            texts == key_texts(other_dtype_keys@),
            forall|j: int| 0 <= j < i ==> #[trigger] texts[j] != env@,
            env@ != ""@,
            env@ != "0"@,
            env@ != "1"@,
            env@ != this_dtype_key@,
        decreases other_dtype_keys@.len() - i,
    {
        if str_eq(env, other_dtype_keys[i]) {
            assert(texts[i as int] == env@);
            return false;
        }
        i = i + 1;
    }
    task_count_gate
}

/// Kernel family that serves an expert layer.
#[derive(Clone, Copy, Debug, PartialEq, Eq, Structural)]
pub enum MoeTier {
    /// Tensor cores.
    Mma,
    /// Weight tiles unpacked once and reused across tasks.
    Tiled,
    /// One pass over the tasks of each expert.
    Grouped,
    /// One block per task.
    TaskMajor,
}

/// Whether the override and the task count admit the tiled tier for `w_dtype`.
pub open spec fn tiled_eligible(w_dtype: GgmlDType, gate: bool, env: Seq<char>) -> bool {
    match w_dtype {
        GgmlDType::Q4K => dtype_eligible(env, gate, "q4k"@, seq!["q5k"@, "q6k"@]),
        GgmlDType::Q5K => dtype_eligible(env, gate, "q5k"@, seq!["q4k"@, "q6k"@]),
        GgmlDType::Q6K => dtype_eligible(env, gate, "q6k"@, seq!["q4k"@, "q5k"@]),
        _ => false,
    }
}

/// The tier of an expert layer with `total_tasks` tasks: the tensor-core tier ahead of the tiled
/// one, that ahead of the grouped one, and the task-major one for all the rest.
pub open spec fn moe_tier_spec(w_dtype: GgmlDType, total_tasks: int, env: MoeEnv) -> MoeTier {
    if env.mma@ != ""@ && total_tasks > MOE_SMALL_TASKS && w_dtype is Q4K {
        MoeTier::Mma
    } else if tiled_eligible(
        w_dtype,
        total_tasks >= min_tasks(setting_text(env.min_tasks)),
        env.grouped@,
    ) {
        MoeTier::Tiled
    } else if env.grouped@ == "1"@ && MOE_SMALL_TASKS < total_tasks <= MOE_MAX_TASKS
        && w_dtype is Q8_0 {
        MoeTier::Grouped
    } else {
        MoeTier::TaskMajor
    }
}

/// Chooses the tier of an expert layer with `total_tasks` tasks.
pub fn moe_tier(w_dtype: GgmlDType, total_tasks: usize, env: &MoeEnv) -> (r: MoeTier)
    ensures
        r == moe_tier_spec(w_dtype, total_tasks as int, *env),
{
    let task_count_gate: bool = total_tasks >= moe_grouped_min_tasks_from_raw(env.min_tasks);
    let q4k_others: [&str; 2] = ["q5k", "q6k"];
    let q5k_others: [&str; 2] = ["q4k", "q6k"];
    let q6k_others: [&str; 2] = ["q4k", "q5k"];
    proof {
        assert(key_texts(q4k_others@) =~= seq!["q5k"@, "q6k"@]);
        assert(key_texts(q5k_others@) =~= seq!["q4k"@, "q6k"@]);
        assert(key_texts(q6k_others@) =~= seq!["q4k"@, "q5k"@]);
    }
    let tiled: bool = match w_dtype {
        GgmlDType::Q4K => mmq_dtype_eligible(
            env.grouped,
            task_count_gate,
            "q4k",
            q4k_others.as_slice(),
        ),
        GgmlDType::Q5K => mmq_dtype_eligible(
            env.grouped,
            task_count_gate,
            "q5k",
            q5k_others.as_slice(),
        ),
        GgmlDType::Q6K => mmq_dtype_eligible(
            env.grouped,
            task_count_gate,
            "q6k",
            q6k_others.as_slice(),
        ),
        _ => false,
    };
    let mma: bool = !str_eq(env.mma, "") && total_tasks > MOE_SMALL_TASKS && matches!(
        w_dtype,
        GgmlDType::Q4K
    );
    if mma {
        MoeTier::Mma
    } else if tiled {
        MoeTier::Tiled
    } else if str_eq(env.grouped, "1") && total_tasks > MOE_SMALL_TASKS && total_tasks
        <= MOE_MAX_TASKS && matches!(w_dtype, GgmlDType::Q8_0) {
        MoeTier::Grouped
    } else {
        MoeTier::TaskMajor
    }
}

/// The kernel of a tier, and whether each warp computes a row of its own. No kernel takes the
/// block formats that are left.
pub open spec fn moe_kernel_spec(
    tier: MoeTier,
    w_dtype: GgmlDType,
    k: int,
    y64: bool,
) -> Option<(Kernel, bool)> {
    match tier {
        MoeTier::Mma => Some((Kernel::MoeMma, false)),
        MoeTier::Tiled => Some(
            (Kernel::MoeTiled { dtype: w_dtype, y64: y64 && !(w_dtype is Q6K) }, false),
        ),
        MoeTier::Grouped => Some((Kernel::MoeGrouped, true)),
        MoeTier::TaskMajor => match w_dtype {
            GgmlDType::Q2K | GgmlDType::Q3K | GgmlDType::Q8_0 => Some(
                (Kernel::MoeTask { dtype: w_dtype, warp_rows: false }, false),
            ),
            GgmlDType::Q4K => Some(
                (Kernel::MoeTask { dtype: w_dtype, warp_rows: k / 256 <= 8 }, k / 256 <= 8),
            ),
            GgmlDType::Q5K | GgmlDType::Q6K => Some(
                (Kernel::MoeTask { dtype: w_dtype, warp_rows: k / 256 <= 4 }, k / 256 <= 4),
            ),
            _ => None,
        },
    }
}

/// Chooses the kernel of a tier, and whether each warp computes a row of its own.
pub fn moe_kernel(tier: MoeTier, w_dtype: GgmlDType, k: usize, y64: bool) -> (r: Option<
    (Kernel, bool),
>)
    ensures
        r == moe_kernel_spec(tier, w_dtype, k as int, y64),
{
    match tier {
        MoeTier::Mma => Some((Kernel::MoeMma, false)),
        MoeTier::Tiled => {
            let y64: bool = y64 && !matches!(w_dtype, GgmlDType::Q6K);
            Some((Kernel::MoeTiled { dtype: w_dtype, y64 }, false))
        },
        MoeTier::Grouped => Some((Kernel::MoeGrouped, true)),
        MoeTier::TaskMajor => match w_dtype {
            GgmlDType::Q2K | GgmlDType::Q3K | GgmlDType::Q8_0 => Some(
                (Kernel::MoeTask { dtype: w_dtype, warp_rows: false }, false),
            ),
            GgmlDType::Q4K => {
                let warp_rows: bool = k / 256 <= 8;
                Some((Kernel::MoeTask { dtype: w_dtype, warp_rows }, warp_rows))
            },
            GgmlDType::Q5K | GgmlDType::Q6K => {
                let warp_rows: bool = k / 256 <= 4;
                Some((Kernel::MoeTask { dtype: w_dtype, warp_rows }, warp_rows))
            },
            _ => None,
        },
    }
}

/// The tall row tile is asked for.
pub open spec fn geom_y64(raw: Option<Seq<char>>) -> bool {
    raw == Some("y64"@)
}

/// Tells whether the tall row tile is asked for.
pub fn moe_geom_y64(raw: Option<&str>) -> (r: bool)
    ensures
        r == geom_y64(setting_text(raw)),
{
    match raw {
        Some(s) => str_eq(s, "y64"),
        None => false,
    }
}

/// A column stride: the setting where it is a number from 1 to 256, `default` otherwise.
pub open spec fn col_stride(raw: Option<Seq<char>>, default: u32) -> u32 {
    match raw {
        Some(s) => match unsigned_value(s, u32::MAX as int) {
            Some(v) => if 1 <= v <= 256 {
                v as u32
            } else {
                default
            },
            None => default,
        },
        None => default,
    }
}

/// Resolves a column stride. A setting outside 1 to 256 counts as unset.
pub fn moe_col_stride(raw: Option<&str>, default: u32) -> (r: u32)
    ensures
        r == col_stride(setting_text(raw), default),
{
    match raw {
        Some(s) => {
            match parse_unsigned(s, u32::MAX as usize) {
                Some(v) => {
                    if 1 <= v && v <= 256 {
                        v as u32
                    } else {
                        default
                    }
                },
                None => default,
            }
        },
        None => default,
    }
}

/// The sizes of an expert layer that its geometry depends on.
#[derive(Clone, Copy, Debug, PartialEq, Eq, Structural)]
pub struct MoeGrid {
    pub n: usize,
    pub num_experts: usize,
    pub batch: usize,
    pub topk: usize,
}

/// The geometry of a launch.
pub open spec fn moe_config_spec(
    tier: MoeTier,
    w_dtype: GgmlDType,
    warp_rows: bool,
    g: MoeGrid,
    env: MoeEnv,
) -> LaunchConfig {
    let rows = g.n as u32;
    let experts = g.num_experts as u32;
    let row_blocks = if warp_rows {
        ceil_quot(rows as int, 4) as u32
    } else {
        rows
    };
    let tall = geom_y64(setting_text(env.geom)) && !(w_dtype is Q6K);
    match tier {
        MoeTier::Mma => LaunchConfig {
            grid_dim: (
                ceil_quot(rows as int, 128) as u32,
                col_stride(setting_text(env.mma_col_stride), 4),
                experts,
            ),
            block_dim: (256, 1, 1),
            shared_mem_bytes: 0,
        },
        MoeTier::Tiled => LaunchConfig {
            grid_dim: (
                ceil_quot(
                    rows as int,
                    if tall {
                        64
                    } else {
                        32
                    },
                ) as u32,
                col_stride(setting_text(env.col_stride), 2),
                experts,
            ),
            block_dim: (
                WARP_SIZE as u32,
                if tall {
                    8
                } else {
                    4
                },
                1,
            ),
            shared_mem_bytes: 0,
        },
        MoeTier::Grouped => LaunchConfig {
            grid_dim: (row_blocks, experts, 1),
            block_dim: (WARP_SIZE as u32, 4, 1),
            shared_mem_bytes: 0,
        },
        MoeTier::TaskMajor => LaunchConfig {
            grid_dim: (row_blocks, g.batch as u32, g.topk as u32),
            block_dim: (WARP_SIZE as u32, 4, 1),
            shared_mem_bytes: 0,
        },
    }
}

/// Lays out the launch of a tier.
pub fn moe_config(
    tier: MoeTier,
    w_dtype: GgmlDType,
    warp_rows: bool,
    g: MoeGrid,
    env: &MoeEnv,
) -> (r: LaunchConfig)
    ensures
        r == moe_config_spec(tier, w_dtype, warp_rows, g, *env),
{
    let rows: u32 = g.n as u32;
    let experts: u32 = g.num_experts as u32;
    let row_blocks: u32 = if warp_rows {
        ceil_div_u32(rows, 4)
    } else {
        rows
    };
    match tier {
        MoeTier::Mma => LaunchConfig {
            grid_dim: (ceil_div_u32(rows, 128), moe_col_stride(env.mma_col_stride, 4), experts),
            block_dim: (256, 1, 1),
            shared_mem_bytes: 0,
        },
        MoeTier::Tiled => {
            let tall: bool = moe_geom_y64(env.geom) && !matches!(w_dtype, GgmlDType::Q6K);
            let tile_rows: u32 = if tall {
                64
            } else {
                32
            };
            let warps: u32 = if tall {
                8
            } else {
                4
            };
            LaunchConfig {
                grid_dim: (ceil_div_u32(rows, tile_rows), moe_col_stride(env.col_stride, 2), experts),
                block_dim: (WARP_SIZE as u32, warps, 1),
                shared_mem_bytes: 0,
            }
        },
        MoeTier::Grouped => LaunchConfig {
            grid_dim: (row_blocks, experts, 1),
            block_dim: (WARP_SIZE as u32, 4, 1),
            shared_mem_bytes: 0,
        },
        MoeTier::TaskMajor => LaunchConfig {
            grid_dim: (row_blocks, g.batch as u32, g.topk as u32),
            block_dim: (WARP_SIZE as u32, 4, 1),
            shared_mem_bytes: 0,
        },
    }
}

proof fn lemma_keys_distinct()
    ensures
        ""@.len() == 0,
        "0"@ != ""@,
        "1"@ != ""@,
        "0"@ != "1"@,
        "q4k"@ != "q5k"@,
        "q4k"@ != "q6k"@,
        "q5k"@ != "q6k"@,
        "q4k"@.len() == 3,
        "q5k"@.len() == 3,
        "q6k"@.len() == 3,
        "0"@.len() == 1,
        "1"@.len() == 1,
{
    reveal_strlit("");
    reveal_strlit("0");
    reveal_strlit("1");
    reveal_strlit("q4k");
    reveal_strlit("q5k");
    reveal_strlit("q6k");
    assert("0"@[0] != "1"@[0]);
    assert("q4k"@[1] != "q5k"@[1]);
    assert("q4k"@[1] != "q6k"@[1]);
    assert("q5k"@[1] != "q6k"@[1]);
}

/// Without overrides, a layer below the default task count never reaches the tiled tier, and one
/// at or above it always does, for each of the three formats that the tier serves.
pub proof fn law_task_count_decides(w_dtype: GgmlDType, total_tasks: int, env: MoeEnv)
    requires
        w_dtype is Q4K || w_dtype is Q5K || w_dtype is Q6K,
        env.grouped@ == ""@,
        env.mma@ == ""@,
        env.min_tasks is None,
    ensures
        moe_tier_spec(w_dtype, total_tasks, env) == if total_tasks >= MOE_DEFAULT_MIN_TASKS {
            MoeTier::Tiled
        } else {
            MoeTier::TaskMajor
        },
{
    lemma_keys_distinct();
}

/// The override `"0"` keeps every format off the tiled and grouped tiers at any task count.
pub proof fn law_zero_forces_off(w_dtype: GgmlDType, total_tasks: int, env: MoeEnv)
    requires
        env.grouped@ == "0"@,
    ensures
        moe_tier_spec(w_dtype, total_tasks, env) is Mma || moe_tier_spec(
            w_dtype,
            total_tasks,
            env,
        ) is TaskMajor,
        env.mma@ == ""@ ==> moe_tier_spec(w_dtype, total_tasks, env) is TaskMajor,
{
    lemma_keys_distinct();
}

/// The override `"1"` puts each of the three formats on the tiled tier at any task count, unless
/// the tensor-core tier takes it first.
pub proof fn law_one_forces_on(w_dtype: GgmlDType, total_tasks: int, env: MoeEnv)
    requires
        w_dtype is Q4K || w_dtype is Q5K || w_dtype is Q6K,
        env.grouped@ == "1"@,
    ensures
        moe_tier_spec(w_dtype, total_tasks, env) is Tiled || moe_tier_spec(
            w_dtype,
            total_tasks,
            env,
        ) is Mma,
        env.mma@ == ""@ ==> moe_tier_spec(w_dtype, total_tasks, env) is Tiled,
{
    lemma_keys_distinct();
}

/// The key of one format puts that format on the tiled tier and keeps the two others off it, at
/// any task count.
pub proof fn law_key_singles_out(total_tasks: int, env: MoeEnv)
    requires
        env.mma@ == ""@,
    ensures
        env.grouped@ == "q4k"@ ==> moe_tier_spec(GgmlDType::Q4K, total_tasks, env) is Tiled
            && !(moe_tier_spec(GgmlDType::Q5K, total_tasks, env) is Tiled) && !(moe_tier_spec(
            GgmlDType::Q6K,
            total_tasks,
            env,
        ) is Tiled),
        env.grouped@ == "q5k"@ ==> moe_tier_spec(GgmlDType::Q5K, total_tasks, env) is Tiled
            && !(moe_tier_spec(GgmlDType::Q4K, total_tasks, env) is Tiled) && !(moe_tier_spec(
            GgmlDType::Q6K,
            total_tasks,
            env,
        ) is Tiled),
        env.grouped@ == "q6k"@ ==> moe_tier_spec(GgmlDType::Q6K, total_tasks, env) is Tiled
            && !(moe_tier_spec(GgmlDType::Q4K, total_tasks, env) is Tiled) && !(moe_tier_spec(
            GgmlDType::Q5K,
            total_tasks,
            env,
        ) is Tiled),
{
    lemma_keys_distinct();
    assert(seq!["q5k"@, "q6k"@][0] == "q5k"@);
    assert(seq!["q5k"@, "q6k"@][1] == "q6k"@);
    assert(seq!["q4k"@, "q6k"@][0] == "q4k"@);
    assert(seq!["q4k"@, "q6k"@][1] == "q6k"@);
    assert(seq!["q4k"@, "q5k"@][0] == "q4k"@);
    assert(seq!["q4k"@, "q5k"@][1] == "q5k"@);
}

/// An override that is none of the known words leaves the tier where no override would.
pub proof fn law_unknown_override_is_unset(
    w_dtype: GgmlDType,
    total_tasks: int,
    env: MoeEnv,
    unset: MoeEnv,
)
    requires
        env.grouped@ != "0"@,
        env.grouped@ != "1"@,
        env.grouped@ != "q4k"@,
        env.grouped@ != "q5k"@,
        env.grouped@ != "q6k"@,
        unset == (MoeEnv { grouped: unset.grouped, ..env }),
        unset.grouped@ == ""@,
    ensures
        moe_tier_spec(w_dtype, total_tasks, env) == moe_tier_spec(w_dtype, total_tasks, unset),
{
    lemma_keys_distinct();
}

impl MoeTier {
    /// The tier as traces show it.
    pub open spec fn label_spec(&self) -> Seq<char> {
        match self {
            MoeTier::Mma => "mma_moe"@,
            MoeTier::Tiled => "mmq_moe"@,
            MoeTier::Grouped => "grp_family"@,
            MoeTier::TaskMajor => "task_major"@,
        }
    }

    /// The tier as traces show it.
    pub fn label(&self) -> (r: &'static str)
        ensures
            r@ == self.label_spec(),
    {
        match self {
            MoeTier::Mma => "mma_moe",
            MoeTier::Tiled => "mmq_moe",
            MoeTier::Grouped => "grp_family",
            MoeTier::TaskMajor => "task_major",
        }
    }
}

/// A layer whose operands and output are written out when asked for.
pub open spec fn moe_dumpable(tier: MoeTier, w_dtype: GgmlDType, n: usize, k: usize) -> bool {
    (tier is Mma || tier is Tiled) && w_dtype is Q4K && n == 1024 && k == 2048
}

/// Decides whether the operands and output of a layer are written out: for the first layer of one
/// shape on the tiling tiers once `setting` asks for it, and for none after that.
pub fn moe_dump(
    tier: MoeTier,
    w_dtype: GgmlDType,
    n: usize,
    k: usize,
    setting: &str,
    dumped: &mut bool,
) -> (r: bool)
    ensures
        r == (moe_dumpable(tier, w_dtype, n, k) && setting@ != ""@ && !*old(dumped)),
        *final(dumped) == (*old(dumped) || moe_dumpable(tier, w_dtype, n, k) && setting@ != ""@),
{
    let dumpable: bool = matches!(tier, MoeTier::Mma | MoeTier::Tiled) && matches!(
        w_dtype,
        GgmlDType::Q4K
    ) && n == 1024 && k == 2048;
    if dumpable && !str_eq(setting, "") {
        let first: bool = !*dumped;
        *dumped = true;
        first
    } else {
        false
    }
}

/// Rows of the output that one block of a launch computes.
pub open spec fn moe_tile_rows(kernel: Kernel) -> int {
    match kernel {
        Kernel::MoeMma => 128,
        Kernel::MoeTiled { y64, .. } => if y64 {
            64
        } else {
            32
        },
        Kernel::MoeGrouped => 4,
        Kernel::MoeTask { warp_rows, .. } => if warp_rows {
            4
        } else {
            1
        },
        _ => 1,
    }
}

/// The geometry of a launch fits the kernel that was chosen: its blocks cover every output row, and
/// none lies wholly past the last row; the tall tile has as many warps as its kernel wants, also
/// for the format that has no tall kernel.
pub proof fn law_moe_grid_fits_kernel(
    tier: MoeTier,
    w_dtype: GgmlDType,
    k: int,
    g: MoeGrid,
    env: MoeEnv,
)
    requires
        g.n <= u32::MAX,
        moe_kernel_spec(tier, w_dtype, k, geom_y64(setting_text(env.geom))) is Some,
    ensures
        ({
            let chosen = moe_kernel_spec(tier, w_dtype, k, geom_y64(setting_text(env.geom)));
            let (kernel, warp_rows) = chosen->0;
            let cfg = moe_config_spec(tier, w_dtype, warp_rows, g, env);
            let (blocks, _, _) = cfg.grid_dim;
            let (_, warps, _) = cfg.block_dim;
            &&& g.n <= blocks * moe_tile_rows(kernel) < g.n + moe_tile_rows(kernel)
            &&& kernel is MoeTiled ==> warps == if kernel->y64 {
                8int
            } else {
                4int
            }
        }),
{
    lemma_ceil_quot(g.n as int, 128);
    lemma_ceil_quot(g.n as int, 64);
    lemma_ceil_quot(g.n as int, 32);
    lemma_ceil_quot(g.n as int, 4);
}

/// When a layer takes each tier. Tensor cores serve Q4K with more than 32 tasks where they are asked
/// for. The grouped tier serves Q8_0 with 33 to 1024 tasks where it is asked for. The tiled tier
/// serves Q4K, Q5K and Q6K alone.
pub proof fn law_moe_tier_conditions(w_dtype: GgmlDType, total_tasks: int, env: MoeEnv)
    ensures
        ({
            let tier = moe_tier_spec(w_dtype, total_tasks, env);
            &&& tier is Mma <==> env.mma@.len() > 0 && total_tasks > 32 && w_dtype is Q4K
            &&& tier is Grouped <==> env.grouped@ == "1"@ && 33 <= total_tasks <= 1024
                && w_dtype is Q8_0
            &&& tier is Tiled ==> w_dtype is Q4K || w_dtype is Q5K || w_dtype is Q6K
        }),
{
    reveal_strlit("");
    if env.mma@.len() == 0 {
        assert(env.mma@ =~= ""@);
    }
}

/// Without an override of the tier, the task count from which the tiled tier is taken is what
/// decides, for each of the three formats that the tier serves.
pub proof fn law_min_tasks_decides(w_dtype: GgmlDType, total_tasks: int, env: MoeEnv)
    requires
        w_dtype is Q4K || w_dtype is Q5K || w_dtype is Q6K,
        env.grouped@ == ""@,
        env.mma@ == ""@,
    ensures
        moe_tier_spec(w_dtype, total_tasks, env) is Tiled <==> total_tasks >= min_tasks(
            setting_text(env.min_tasks),
        ),
        moe_tier_spec(w_dtype, total_tasks, env) is Tiled || moe_tier_spec(
            w_dtype,
            total_tasks,
            env,
        ) is TaskMajor,
{
    lemma_keys_distinct();
}

/// A positive number that was written down as the task count is the task count. Without one, or
/// with zero or a text that starts like no number, it is 1024.
pub proof fn law_min_tasks_reads_setting(n: nat, text: Seq<char>)
    requires
        n <= usize::MAX,
    ensures
        n >= 1 ==> min_tasks(Some(decimal(n))) == n,
        min_tasks(Some(decimal(0))) == 1024,
        min_tasks(None) == 1024,
        text.len() == 0 || !is_digit(text[0]) && text[0] != '+' ==> min_tasks(Some(text)) == 1024,
{
    law_decimal_reads_back(n, usize::MAX as int);
    law_decimal_reads_back(0, usize::MAX as int);
    if text.len() > 0 && !is_digit(text[0]) && text[0] != '+' {
        assert(unsigned_part(text)[0] == text[0]);
    }
}

/// A number from 1 to 256 that was written down as a column stride is the stride. Without one, or
/// with another number, it is the default.
pub proof fn law_col_stride_reads_setting(n: nat, default: u32)
    requires
        n <= u32::MAX,
    ensures
        col_stride(Some(decimal(n)), default) == if 1 <= n <= 256 {
            n
        } else {
            default as nat
        },
        col_stride(None, default) == default,
{
    law_decimal_reads_back(n, u32::MAX as int);
}

/// The grid of a launch has a column of blocks for each expert on the tiers that walk the experts,
/// and one for each task on the tier that walks the tasks. The blocks have four warps of 32
/// threads, eight on the tensor-core tier and under the tall tile. A walk over the tasks of an
/// expert is shared by as many blocks as the column stride says: four on the tensor-core tier and
/// two on the tiled one, unless set otherwise.
pub proof fn law_moe_grid_covers_tasks(
    tier: MoeTier,
    w_dtype: GgmlDType,
    warp_rows: bool,
    g: MoeGrid,
    env: MoeEnv,
)
    requires
        g.num_experts <= u32::MAX,
        g.batch <= u32::MAX,
        g.topk <= u32::MAX,
    ensures
        ({
            let cfg = moe_config_spec(tier, w_dtype, warp_rows, g, env);
            let (_, y, z) = cfg.grid_dim;
            let (threads, warps, block_z) = cfg.block_dim;
            let tall = setting_text(env.geom) == Some("y64"@) && !(w_dtype is Q6K);
            &&& cfg.shared_mem_bytes == 0
            &&& block_z == 1
            &&& match tier {
                MoeTier::Mma => {
                    &&& z == g.num_experts
                    &&& y == col_stride(setting_text(env.mma_col_stride), 4)
                    &&& threads == 256 && warps == 1
                },
                MoeTier::Tiled => {
                    &&& z == g.num_experts
                    &&& y == col_stride(setting_text(env.col_stride), 2)
                    &&& threads == 32
                    &&& warps == if tall {
                        8int
                    } else {
                        4int
                    }
                },
                MoeTier::Grouped => y == g.num_experts && z == 1 && threads == 32 && warps == 4,
                MoeTier::TaskMajor => {
                    &&& y == g.batch
                    &&& z == g.topk
                    &&& y * z == g.batch * g.topk
                    &&& threads == 32 && warps == 4
                },
            }
        }),
{
}

/// Only one shape of layer is ever written out: Q4K weights of 1024 rows and 2048 columns, on the
/// tiers that list tasks.
pub proof fn law_one_shape_is_dumped(tier: MoeTier, w_dtype: GgmlDType, n: usize, k: usize)
    ensures
        moe_dumpable(tier, w_dtype, n, k) <==> w_dtype == GgmlDType::Q4K && n == 1024 && k == 2048
            && tier != MoeTier::Grouped && tier != MoeTier::TaskMajor,
{
}

} // verus!
