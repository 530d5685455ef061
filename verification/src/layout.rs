//! The screen-layout partition: one screen rectangle is split into three
//! vertically stacked regions — title bar, CPU gauge, memory gauge — that
//! tile it exactly.

use vstd::prelude::*;

verus! {

/// A rectangle of terminal character cells assigned to one UI element.
#[derive(Clone, Copy, Debug, PartialEq, Eq, Structural)]
pub struct Region {
    pub x: u16,
    pub y: u16,
    pub width: u16,
    pub height: u16,
}

/// The three stacked regions of one frame, from top to bottom.
#[derive(Clone, Copy, Debug, PartialEq, Eq, Structural)]
pub struct ScreenLayout {
    pub title: Region,
    pub cpu: Region,
    pub memory: Region,
}

/// Height of the title region: two cells, clamped to the screen height on a
/// shorter screen.
pub open spec fn title_height(h: int) -> int {
    if h < 2 {
        h
    } else {
        2
    }
}

/// Height of the CPU gauge region: the larger half of the rows the title
/// leaves over.
pub open spec fn cpu_height(h: int) -> int {
    (h - title_height(h) + 1) / 2
}

/// Height of the memory gauge region: whatever the title and the CPU gauge
/// leave over.
pub open spec fn memory_height(h: int) -> int {
    h - title_height(h) - cpu_height(h)
}

/// The partition of a `width`-by-`height` screen: title on top, CPU gauge
/// below it, memory gauge at the bottom, every region the full width.
pub open spec fn layout_of(width: u16, height: u16) -> ScreenLayout {
    ScreenLayout {
        title: Region {
            x: 0,
            y: 0,
            width,
            height: title_height(height as int) as u16,
        },
        cpu: Region {
            x: 0,
            y: title_height(height as int) as u16,
            width,
            height: cpu_height(height as int) as u16,
        },
        memory: Region {
            x: 0,
            y: (title_height(height as int) + cpu_height(height as int)) as u16,
            width,
            height: memory_height(height as int) as u16,
        },
    }
}

/// The three region heights always tile the screen height exactly, the title
/// never exceeds two rows, and the two gauge heights differ by at most one.
pub proof fn lemma_layout_partitions(h: int)
    requires
        0 <= h,
    ensures
        title_height(h) + cpu_height(h) + memory_height(h) == h,
        0 <= title_height(h) <= 2,
        title_height(h) <= h,
        0 <= cpu_height(h),
        0 <= memory_height(h),
        cpu_height(h) - memory_height(h) == 0 || cpu_height(h) - memory_height(h) == 1,
{
}

/// On a screen shorter than the title bar, the title is clamped to the whole
/// screen height and both gauges are empty.
pub proof fn lemma_layout_short_screen(h: int)
    requires
        0 <= h < 2,
    ensures
        title_height(h) == h,
        cpu_height(h) == 0,
        memory_height(h) == 0,
{
}

/// The full tiling statement over the computed regions: widths all equal the
/// screen width, the regions are contiguous from the top with no gap and no
/// overlap, and their heights sum to the screen height.
pub proof fn lemma_layout_tiles(width: u16, height: u16)
    ensures
        layout_of(width, height).title.y == 0,
        layout_of(width, height).cpu.y == layout_of(width, height).title.y + layout_of(
            width,
            height,
        ).title.height,
        layout_of(width, height).memory.y == layout_of(width, height).cpu.y + layout_of(
            width,
            height,
        ).cpu.height,
        layout_of(width, height).title.height + layout_of(width, height).cpu.height + layout_of(
            width,
            height,
        ).memory.height == height,
        layout_of(width, height).title.width == width,
        layout_of(width, height).cpu.width == width,
        layout_of(width, height).memory.width == width,
{
    lemma_layout_partitions(height as int);
}

/// Splits a `width`-by-`height` screen into the title, CPU and memory
/// regions of `layout_of`, which tile it exactly.
pub fn compute_layout(width: u16, height: u16) -> (l: ScreenLayout)
    ensures
        l == layout_of(width, height),
        l.title.height + l.cpu.height + l.memory.height == height,
        l.cpu.y == l.title.y + l.title.height,
        l.memory.y == l.cpu.y + l.cpu.height,
{
    proof {
        lemma_layout_partitions(height as int);
    }
    let title_h: u16 = if height < 2 {
        height
    } else {
        2
    };
    let rest: u16 = height - title_h;
    let cpu_h: u16 = rest / 2 + rest % 2;
    let mem_h: u16 = rest - cpu_h;
    ScreenLayout {
        title: Region { x: 0, y: 0, width, height: title_h },
        cpu: Region { x: 0, y: title_h, width, height: cpu_h },
        memory: Region { x: 0, y: title_h + cpu_h, width, height: mem_h },
    }
}

} // verus!
