//! Mip chain generation: the per-level blit/barrier choreography.
//!
//! For levels `1..n` the recorded commands transition level `l-1` from
//! transfer-destination to transfer-source, blit it into level `l` at half
//! size, then retire level `l-1` to shader-read-only; a final barrier
//! retires the last level.  The read-source and write-destination states
//! alternate per level and must never overlap, so the whole sequence is
//! checked against a small interpreter that tracks every level's layout.

use vstd::prelude::*;
use crate::barrier::BarrierMasks;
use crate::types::{
    ImageLayout, ACCESS_SHADER_READ, ACCESS_TRANSFER_READ, ACCESS_TRANSFER_WRITE,
    STAGE_FRAGMENT_SHADER, STAGE_TRANSFER,
};

verus! {

/// One barrier on a single mip level of every layer of the image.
#[derive(Clone, Copy, PartialEq, Eq, Structural, Debug)]
pub struct MipBarrier {
    pub base_mip_level: u32,
    pub old_layout: ImageLayout,
    pub new_layout: ImageLayout,
    pub masks: BarrierMasks,
}

/// One step of mip generation, executed in order on the transfer queue.
#[derive(Clone, Copy, PartialEq, Eq, Structural, Debug)]
pub enum MipCommand {
    Barrier(MipBarrier),
    /// Linear-filtered blit of the full `src_level` into the full
    /// `dst_level` of every layer.
    Blit {
        src_level: u32,
        dst_level: u32,
        src_width: u32,
        src_height: u32,
        dst_width: u32,
        dst_height: u32,
    },
}

/// Extent of mip level `l`: the base dimension halved `l` times, with each
/// halving clamped so the extent never drops below 1.
pub open spec fn mip_dim(d: nat, l: nat) -> nat
    decreases l,
{
    if l == 0 {
        d
    } else {
        let prev = mip_dim(d, (l - 1) as nat);
        if prev > 1 {
            prev / 2
        } else {
            prev
        }
    }
}

/// Effect of one command on the per-level layout state; `None` when the
/// command would read or write a level that is not in the layout the
/// command assumes.
pub open spec fn apply_mip_command(
    state: Seq<ImageLayout>,
    c: MipCommand,
) -> Option<Seq<ImageLayout>> {
    match c {
        MipCommand::Barrier(b) => {
            if b.base_mip_level < state.len() && state[b.base_mip_level as int] == b.old_layout {
                Some(state.update(b.base_mip_level as int, b.new_layout))
            } else {
                None
            }
        },
        MipCommand::Blit { src_level, dst_level, .. } => {
            if src_level < state.len() && dst_level < state.len()
                && state[src_level as int] == ImageLayout::TransferSrcOptimal
                && state[dst_level as int] == ImageLayout::TransferDstOptimal {
                Some(state)
            } else {
                None
            }
        },
    }
}

/// Runs a command sequence over the per-level layout state, failing as soon
/// as one command is inconsistent with the state it meets.
pub open spec fn run_mip_commands(
    state: Seq<ImageLayout>,
    cmds: Seq<MipCommand>,
) -> Option<Seq<ImageLayout>>
    decreases cmds.len(),
{
    if cmds.len() == 0 {
        Some(state)
    } else {
        match apply_mip_command(state, cmds.first()) {
            Some(next) => run_mip_commands(next, cmds.drop_first()),
            None => None,
        }
    }
}

proof fn lemma_run_push(state: Seq<ImageLayout>, cmds: Seq<MipCommand>, c: MipCommand, cur: Seq<ImageLayout>)
    requires
        run_mip_commands(state, cmds) == Some(cur),
    ensures
        run_mip_commands(state, cmds.push(c)) == apply_mip_command(cur, c),
    decreases cmds.len(),
{
    if cmds.len() == 0 {
        assert(cur == state);
        assert(cmds.push(c).first() == c);
        assert(cmds.push(c).drop_first() =~= Seq::<MipCommand>::empty());
        if let Some(next) = apply_mip_command(state, c) {
            assert(run_mip_commands(state, cmds.push(c)) == run_mip_commands(next, Seq::<MipCommand>::empty()));
        }
    } else {
        let first = cmds.first();
        let next = apply_mip_command(state, first);
        assert(next is Some);
        assert(cmds.push(c).first() == first);
        assert(cmds.push(c).drop_first() =~= cmds.drop_first().push(c));
        lemma_run_push(next.unwrap(), cmds.drop_first(), c, cur);
    }
}

/// Layout state with the first `k` levels retired to shader-read-only and
/// the remaining levels still transfer destinations.
pub open spec fn mip_state(n: nat, k: nat) -> Seq<ImageLayout> {
    Seq::new(n, |i: int| if i < k { ImageLayout::ShaderReadOnlyOptimal } else { ImageLayout::TransferDstOptimal })
}

pub open spec fn mip_src_barrier(level: int) -> MipCommand {
    MipCommand::Barrier(MipBarrier {
        base_mip_level: (level - 1) as u32,
        old_layout: ImageLayout::TransferDstOptimal,
        new_layout: ImageLayout::TransferSrcOptimal,
        masks: BarrierMasks {
            src_access: ACCESS_TRANSFER_WRITE,
            dst_access: ACCESS_TRANSFER_READ,
            src_stage: STAGE_TRANSFER,
            dst_stage: STAGE_TRANSFER,
        },
    })
}

pub open spec fn mip_blit(width: nat, height: nat, level: int) -> MipCommand {
    MipCommand::Blit {
        src_level: (level - 1) as u32,
        dst_level: level as u32,
        src_width: mip_dim(width, (level - 1) as nat) as u32,
        src_height: mip_dim(height, (level - 1) as nat) as u32,
        dst_width: mip_dim(width, level as nat) as u32,
        dst_height: mip_dim(height, level as nat) as u32,
    }
}

pub open spec fn mip_retire_barrier(level: int, from_src: bool) -> MipCommand {
    MipCommand::Barrier(MipBarrier {
        base_mip_level: level as u32,
        old_layout: if from_src { ImageLayout::TransferSrcOptimal } else { ImageLayout::TransferDstOptimal },
        new_layout: ImageLayout::ShaderReadOnlyOptimal,
        masks: BarrierMasks {
            src_access: if from_src { ACCESS_TRANSFER_READ } else { ACCESS_TRANSFER_WRITE },
            dst_access: ACCESS_SHADER_READ,
            src_stage: STAGE_TRANSFER,
            dst_stage: STAGE_FRAGMENT_SHADER,
        },
    })
}

/// The three commands that fill mip level `l` stand at positions
/// `3*(l-1) ..= 3*(l-1)+2`: source barrier, blit, retire barrier.
pub open spec fn mip_triplet(s: Seq<MipCommand>, width: nat, height: nat, l: int) -> bool {
    &&& s[3 * (l - 1)] == mip_src_barrier(l)
    &&& s[3 * (l - 1) + 1] == mip_blit(width, height, l)
    &&& s[3 * (l - 1) + 2] == mip_retire_barrier(l - 1, true)
}

/// Everything `generate_mipmap_commands` promises of its output: the exact
/// command at every position, and the replay law.
pub open spec fn mip_plan_ok(s: Seq<MipCommand>, width: nat, height: nat, m: nat) -> bool {
    &&& m >= 1
    &&& s.len() == 3 * (m - 1) + 1
    &&& forall|l: int| 1 <= l < m ==> #[trigger] mip_triplet(s, width, height, l)
    &&& s[s.len() - 1] == mip_retire_barrier(m - 1, false)
    &&& run_mip_commands(mip_state(m, 0), s) == Some(mip_state(m, m))
}

/// Builds the command sequence that fills mip levels `1..mip_levels` from
/// level 0 and leaves every level readable by the fragment shader.  Every
/// blit filters linearly, so the caller must have probed that the image
/// format supports linear-filter sampling under optimal tiling; without
/// that the commands may not be planned at all.
///
/// The last clause is the choreography's safety statement: replayed over
/// per-level layout tracking, starting from all levels transfer-destination
/// (the state after the level-0 upload), every barrier meets the layout it
/// assumes, every blit reads a transfer-source level and writes a
/// transfer-destination level, and afterwards every level is
/// shader-read-only.
pub fn generate_mipmap_commands(
    width: u32,
    height: u32,
    mip_levels: u32,
    linear_blit_supported: bool,
) -> (r: Vec<MipCommand>)
    requires
        width >= 1,
        height >= 1,
        1 <= mip_levels <= 32,
        linear_blit_supported,
    ensures
        mip_plan_ok(r@, width as nat, height as nat, mip_levels as nat),
{
    let ghost n = mip_levels as nat;
    let mut cmds: Vec<MipCommand> = Vec::new();
    let mut mip_width: u32 = width;
    let mut mip_height: u32 = height;
    let mut level: u32 = 1;
    let ghost init = mip_state(n, 0);
    let ghost mut cur = init;

    assert(run_mip_commands(init, cmds@) == Some(cur));

    while level < mip_levels
        invariant
            1 <= level <= mip_levels <= 32,
            width >= 1,
            height >= 1,
            mip_width == mip_dim(width as nat, (level - 1) as nat),
            mip_height == mip_dim(height as nat, (level - 1) as nat),
            mip_width >= 1,
            mip_height >= 1,
            cmds@.len() == 3 * (level - 1),
            forall|l: int|
                1 <= l < level ==> #[trigger] mip_triplet(cmds@, width as nat, height as nat, l),
            cur == mip_state(mip_levels as nat, (level - 1) as nat),
            run_mip_commands(mip_state(mip_levels as nat, 0), cmds@) == Some(cur),
        decreases mip_levels - level,
    {
        let ghost s0 = cmds@;
        let next_mip_width: u32 = if mip_width > 1 { mip_width / 2 } else { mip_width };
        let next_mip_height: u32 = if mip_height > 1 { mip_height / 2 } else { mip_height };
        proof {
            assert(next_mip_width == mip_dim(width as nat, level as nat));
            assert(next_mip_height == mip_dim(height as nat, level as nat));
        }

        let src_barrier = MipCommand::Barrier(MipBarrier {
            base_mip_level: level - 1,
            old_layout: ImageLayout::TransferDstOptimal,
            new_layout: ImageLayout::TransferSrcOptimal,
            masks: BarrierMasks {
                src_access: ACCESS_TRANSFER_WRITE,
                dst_access: ACCESS_TRANSFER_READ,
                src_stage: STAGE_TRANSFER,
                dst_stage: STAGE_TRANSFER,
            },
        });
        proof {
            lemma_run_push(mip_state(mip_levels as nat, 0), cmds@, src_barrier, cur);
            cur = cur.update(level - 1, ImageLayout::TransferSrcOptimal);
        }
        cmds.push(src_barrier);

        let blit = MipCommand::Blit {
            src_level: level - 1,
            dst_level: level,
            src_width: mip_width,
            src_height: mip_height,
            dst_width: next_mip_width,
            dst_height: next_mip_height,
        };
        proof {
            lemma_run_push(mip_state(mip_levels as nat, 0), cmds@, blit, cur);
        }
        cmds.push(blit);

        let retire = MipCommand::Barrier(MipBarrier {
            base_mip_level: level - 1,
            old_layout: ImageLayout::TransferSrcOptimal,
            new_layout: ImageLayout::ShaderReadOnlyOptimal,
            masks: BarrierMasks {
                src_access: ACCESS_TRANSFER_READ,
                dst_access: ACCESS_SHADER_READ,
                src_stage: STAGE_TRANSFER,
                dst_stage: STAGE_FRAGMENT_SHADER,
            },
        });
        proof {
            lemma_run_push(mip_state(mip_levels as nat, 0), cmds@, retire, cur);
            cur = cur.update(level - 1, ImageLayout::ShaderReadOnlyOptimal);
            assert(cur =~= mip_state(mip_levels as nat, level as nat));
        }
        cmds.push(retire);

        proof {
            assert(mip_triplet(cmds@, width as nat, height as nat, level as int));
            assert forall|l: int|
                1 <= l < level + 1 implies #[trigger] mip_triplet(
                cmds@,
                width as nat,
                height as nat,
                l,
            ) by {
                if l < level {
                    assert(mip_triplet(s0, width as nat, height as nat, l));
                    assert(cmds@[3 * (l - 1)] == s0[3 * (l - 1)]);
                    assert(cmds@[3 * (l - 1) + 1] == s0[3 * (l - 1) + 1]);
                    assert(cmds@[3 * (l - 1) + 2] == s0[3 * (l - 1) + 2]);
                }
            }
        }

        mip_width = next_mip_width;
        mip_height = next_mip_height;
        level = level + 1;
    }

    let last = MipCommand::Barrier(MipBarrier {
        base_mip_level: mip_levels - 1,
        old_layout: ImageLayout::TransferDstOptimal,
        new_layout: ImageLayout::ShaderReadOnlyOptimal,
        masks: BarrierMasks {
            src_access: ACCESS_TRANSFER_WRITE,
            dst_access: ACCESS_SHADER_READ,
            src_stage: STAGE_TRANSFER,
            dst_stage: STAGE_FRAGMENT_SHADER,
        },
    });
    let ghost s1 = cmds@;
    proof {
        lemma_run_push(mip_state(mip_levels as nat, 0), cmds@, last, cur);
        cur = cur.update(mip_levels - 1, ImageLayout::ShaderReadOnlyOptimal);
        assert(cur =~= mip_state(mip_levels as nat, mip_levels as nat));
    }
    cmds.push(last);
    proof {
        assert forall|l: int|
            1 <= l < mip_levels implies #[trigger] mip_triplet(
            cmds@,
            width as nat,
            height as nat,
            l,
        ) by {
            assert(mip_triplet(s1, width as nat, height as nat, l));
            assert(cmds@[3 * (l - 1)] == s1[3 * (l - 1)]);
            assert(cmds@[3 * (l - 1) + 1] == s1[3 * (l - 1) + 1]);
            assert(cmds@[3 * (l - 1) + 2] == s1[3 * (l - 1) + 2]);
        }
    }

    cmds
}

} // verus!
