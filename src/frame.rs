use vstd::prelude::*;
use crate::registry::TextureRegistry;
use crate::scissor::{ClipRect, ScissorRect, scissor_spec, scissor_rect};

verus! {

/// One draw command of a frame, as the GUI library emitted it: how many
/// indices it draws, where it is clipped (already scaled to pixels) and which
/// texture it samples.
#[derive(Clone, Copy, Debug, PartialEq, Eq, Structural)]
pub struct DrawCommand {
    pub elem_count: u32,
    pub clip: ClipRect,
    pub texture: i32,
}

/// One GPU draw: the texture handle, the slice `[index_start, index_end)` of
/// the shared index buffer, and the scissor rectangle.
#[derive(Clone, Copy, Debug, PartialEq, Eq, Structural)]
pub struct DrawCall {
    pub texture: i32,
    pub index_start: usize,
    pub index_end: usize,
    pub scissor: ScissorRect,
}

/// Why a frame cannot be drawn; `command` is the position of the offending
/// command in the frame's list.
#[derive(Clone, Copy, Debug, PartialEq, Eq, Structural)]
pub enum FrameError {
    /// The command names a texture handle that the registry never issued.
    TextureNotFound { command: usize, handle: i32 },
    /// The command's indices would run past the end of the index buffer.
    IndexRangeOverflow { command: usize, index_start: usize, elem_count: u32 },
}

/// The draws of `cmds` and the index cursor after them, on a registry of
/// `texture_count` textures, a framebuffer `fb_height` pixels high and an
/// index buffer of `index_capacity` indices; or the first command that cannot
/// be drawn. A command without indices is skipped and leaves the cursor where
/// it was.
pub open spec fn plan_spec(
    texture_count: nat,
    cmds: Seq<DrawCommand>,
    fb_height: u32,
    index_capacity: usize,
) -> Result<(Seq<DrawCall>, nat), FrameError>
    decreases cmds.len(),
{
    if cmds.len() == 0 {
        Ok((Seq::empty(), 0))
    } else {
        let i = cmds.len() - 1;
        let c = cmds[i];
        match plan_spec(texture_count, cmds.drop_last(), fb_height, index_capacity) {
            Err(e) => Err(e),
            Ok((calls, cursor)) => if c.elem_count == 0 {
                Ok((calls, cursor))
            } else if !(1 <= c.texture && c.texture <= texture_count) {
                Err(FrameError::TextureNotFound { command: i as usize, handle: c.texture })
            } else if cursor + c.elem_count > index_capacity {
                Err(
                    FrameError::IndexRangeOverflow {
                        command: i as usize,
                        index_start: cursor as usize,
                        elem_count: c.elem_count,
                    },
                )
            } else {
                let end = (cursor + c.elem_count) as nat;
                Ok(
                    (
                        calls.push(
                            DrawCall {
                                texture: c.texture,
                                index_start: cursor as usize,
                                index_end: end as usize,
                                scissor: scissor_spec(c.clip, fb_height),
                            },
                        ),
                        end,
                    ),
                )
            },
        }
    }
}

/// Walks a frame's draw commands in order and returns the draw calls to issue,
/// one per command with indices, over consecutive slices of the index buffer
/// starting at 0. Fails at the first command that names an unregistered
/// texture or reaches past `index_capacity`.
pub fn plan_frame<T, S>(
    registry: &TextureRegistry<T, S>,
    commands: &Vec<DrawCommand>,
    fb_height: u32,
    index_capacity: usize,
) -> (r: Result<Vec<DrawCall>, FrameError>)
    ensures
        match plan_spec(registry@.len(), commands@, fb_height, index_capacity) {
            Ok((calls, _)) => r matches Ok(v) && v@ == calls,
            Err(e) => r == Err::<Vec<DrawCall>, FrameError>(e),
        },
{
    let mut calls: Vec<DrawCall> = Vec::new();
    let mut cursor: usize = 0;
    let mut i: usize = 0;
    while i < commands.len()
        invariant
            i <= commands@.len(),
            plan_spec(registry@.len(), commands@.take(i as int), fb_height, index_capacity)
                == Ok::<(Seq<DrawCall>, nat), FrameError>((calls@, cursor as nat)),
        decreases commands@.len() - i,
    {
        let c = commands[i];
        proof {
            assert(commands@.take(i + 1).drop_last() == commands@.take(i as int));
            lemma_index_ranges_consecutive(registry@.len(), commands@.take(i as int), fb_height, index_capacity);
        }
        if c.elem_count > 0 {
            if registry.resolve(c.texture).is_none() {
                proof {
                    lemma_plan_stops_at_error(registry@.len(), commands@, i as int, fb_height, index_capacity);
                }
                return Err(FrameError::TextureNotFound { command: i, handle: c.texture });
            }
            if c.elem_count as usize > index_capacity - cursor {
                proof {
                    lemma_plan_stops_at_error(registry@.len(), commands@, i as int, fb_height, index_capacity);
                }
                return Err(FrameError::IndexRangeOverflow { command: i, index_start: cursor, elem_count: c.elem_count });
            }
            let end = cursor + c.elem_count as usize;
            calls.push(DrawCall { texture: c.texture, index_start: cursor, index_end: end, scissor: scissor_rect(c.clip, fb_height) });
            cursor = end;
        }
        i = i + 1;
    }
    proof {
        assert(commands@.take(i as int) == commands@);
    }
    Ok(calls)
}

/// Once the plan of a prefix has failed, the plan of every longer prefix
/// fails with the same error.
proof fn lemma_plan_stops_at_error(texture_count: nat, cmds: Seq<DrawCommand>, i: int, fb_height: u32, cap: usize)
    requires
        0 <= i < cmds.len(),
        plan_spec(texture_count, cmds.take(i + 1), fb_height, cap) is Err,
    ensures
        plan_spec(texture_count, cmds, fb_height, cap) == plan_spec(texture_count, cmds.take(i + 1), fb_height, cap),
    decreases cmds.len() - i,
{
    if i + 1 < cmds.len() {
        assert(cmds.take(i + 2).drop_last() == cmds.take(i + 1));
        lemma_plan_stops_at_error(texture_count, cmds, i + 1, fb_height, cap);
    } else {
        assert(cmds.take(i + 1) == cmds);
    }
}

/// A frame without draw commands plans no draw and no error, on any registry:
/// rendering it again and again issues nothing.
pub proof fn lemma_empty_frame(texture_count: nat, fb_height: u32, index_capacity: usize)
    ensures
        plan_spec(texture_count, Seq::empty(), fb_height, index_capacity)
            == Ok::<(Seq<DrawCall>, nat), FrameError>((Seq::empty(), 0)),
{
}

/// A command without indices adds no draw and does not move the index cursor.
pub proof fn lemma_empty_command_skipped(
    texture_count: nat,
    cmds: Seq<DrawCommand>,
    c: DrawCommand,
    fb_height: u32,
    index_capacity: usize,
)
    requires
        c.elem_count == 0,
    ensures
        plan_spec(texture_count, cmds.push(c), fb_height, index_capacity)
            == plan_spec(texture_count, cmds, fb_height, index_capacity),
{
    assert(cmds.push(c).drop_last() == cmds);
}

/// The draws of a frame cover consecutive, non-empty slices of the index
/// buffer: the first starts at 0, each starts where the one before it ended,
/// and the last ends at the cursor, which stays within the index buffer.
pub proof fn lemma_index_ranges_consecutive(
    texture_count: nat,
    cmds: Seq<DrawCommand>,
    fb_height: u32,
    index_capacity: usize,
)
    ensures
        plan_spec(texture_count, cmds, fb_height, index_capacity) matches Ok((calls, cursor)) ==> {
            &&& cursor <= index_capacity
            &&& calls.len() == 0 ==> cursor == 0
            &&& calls.len() > 0 ==> calls[0].index_start == 0 && calls.last().index_end == cursor
            &&& forall|k: int| 0 <= k < calls.len() ==> #[trigger] calls[k].index_start < calls[k].index_end
            &&& forall|k: int|
                0 <= k < calls.len() - 1 ==> #[trigger] calls[k].index_end == calls[k + 1].index_start
        },
    decreases cmds.len(),
{
    if cmds.len() > 0 {
        lemma_index_ranges_consecutive(texture_count, cmds.drop_last(), fb_height, index_capacity);
    }
}

} // verus!
