//! What the client asks for when it attaches its user interface: a grid of
//! a sane size and a fixed set of options.

use nvim_rs::UiAttachOptions;
use vstd::prelude::*;

verus! {

/// The options of an attach call as the RPC library holds them.
#[verifier::external_type_specification]
#[verifier::external_body]
pub struct ExUiAttachOptions(nvim_rs::UiAttachOptions);

/// The switches that are set in `options`, each under the name that it is
/// sent with.
pub uninterp spec fn switches(options: UiAttachOptions) -> Map<Seq<char>, bool>;

/// No switch is set.
pub open spec fn no_switches() -> Map<Seq<char>, bool> {
    Map::empty()
}

/// `UiAttachOptions::new`: options in which nothing is set.
#[verifier::external_body]
fn new_options() -> (options: UiAttachOptions)
    ensures
        switches(options) == no_switches(),
{
    UiAttachOptions::new()
}

/// `UiAttachOptions::set_linegrid_external`: sets the switch that is sent
/// as `ext_linegrid`, in place of an earlier setting of it, and touches no
/// other.
#[verifier::external_body]
fn set_linegrid_external(options: &mut UiAttachOptions, value: bool)
    ensures
        switches(*final(options)) == switches(*old(options)).insert("ext_linegrid"@, value),
{
    options.set_linegrid_external(value);
}

/// `UiAttachOptions::set_multigrid_external`: sets the switch that is sent
/// as `ext_multigrid`, in place of an earlier setting of it, and touches no
/// other.
#[verifier::external_body]
fn set_multigrid_external(options: &mut UiAttachOptions, value: bool)
    ensures
        switches(*final(options)) == switches(*old(options)).insert("ext_multigrid"@, value),
{
    options.set_multigrid_external(value);
}

/// `UiAttachOptions::set_rgb`: sets the switch that is sent as `rgb`, in
/// place of an earlier setting of it, and touches no other.
#[verifier::external_body]
fn set_rgb(options: &mut UiAttachOptions, value: bool)
    ensures
        switches(*final(options)) == switches(*old(options)).insert("rgb"@, value),
{
    options.set_rgb(value);
}

/// A grid size in cells.
#[derive(Debug, Clone, Copy, PartialEq, Eq)]
pub struct GridSize {
    pub width: u32,
    pub height: u32,
}

/// The grid that is asked for where the caller names none.
pub const DEFAULT_GRID_WIDTH: u32 = 100;

pub const DEFAULT_GRID_HEIGHT: u32 = 50;

/// The smallest grid that is asked for.
pub const MIN_GRID_WIDTH: u32 = 20;

pub const MIN_GRID_HEIGHT: u32 = 6;

/// The largest grid that is asked for.
pub const MAX_GRID_WIDTH: u32 = 10000;

pub const MAX_GRID_HEIGHT: u32 = 1000;

/// What an attach call carries.
#[derive(Debug, Clone, Copy, PartialEq, Eq)]
pub struct AttachRequest {
    /// Columns.
    pub width: i64,
    /// Rows.
    pub height: i64,
    /// The client draws lines itself.
    pub linegrid_external: bool,
    /// The client lays out the grids of the windows itself.
    pub multigrid_external: bool,
    /// Colors are sent as RGB.
    pub rgb: bool,
}

/// `value`, moved into `low ..= high` where it lies outside.
pub open spec fn clamped(value: int, low: int, high: int) -> int {
    if value < low {
        low
    } else if value > high {
        high
    } else {
        value
    }
}

/// `size` with each side moved into the supported range.
pub open spec fn clamped_size(size: GridSize) -> GridSize {
    GridSize {
        width: clamped(size.width as int, 20, 10000) as u32,
        height: clamped(size.height as int, 6, 1000) as u32,
    }
}

/// The grid that is attached for `requested`: the default where nothing is
/// requested, else the request within the supported range.
pub open spec fn attached_size(requested: Option<GridSize>) -> GridSize {
    match requested {
        Some(size) => clamped_size(size),
        None => GridSize { width: 100, height: 50 },
    }
}

/// The attach call for `requested`. Line-based drawing and RGB are always
/// on; the client's own window layout is on unless it is switched off.
pub open spec fn attach_request_for(requested: Option<GridSize>, no_multi_grid: bool)
    -> AttachRequest {
    AttachRequest {
        width: attached_size(requested).width as i64,
        height: attached_size(requested).height as i64,
        linegrid_external: true,
        multigrid_external: !no_multi_grid,
        rgb: true,
    }
}

impl AttachRequest {
    /// The switches of this request under the names they are sent with.
    pub open spec fn switch_map(self) -> Map<Seq<char>, bool> {
        map![
            "ext_linegrid"@ => self.linegrid_external,
            "ext_multigrid"@ => self.multigrid_external,
            "rgb"@ => self.rgb,
        ]
    }

    /// The options of this request for the attach call: its three switches
    /// and nothing else.
    pub fn options(&self) -> (options: UiAttachOptions)
        ensures
            switches(options) == self.switch_map(),
    {
        let mut options = new_options();
        set_linegrid_external(&mut options, self.linegrid_external);
        set_multigrid_external(&mut options, self.multigrid_external);
        set_rgb(&mut options, self.rgb);
        options
    }
}

fn clamp_side(value: u32, low: u32, high: u32) -> (side: u32)
    requires
        low <= high,
    ensures
        side == clamped(value as int, low as int, high as int),
{
    if value < low {
        low
    } else if value > high {
        high
    } else {
        value
    }
}

/// `grid_size` with each side moved into the supported range.
pub fn clamped_grid_size(grid_size: &GridSize) -> (size: GridSize)
    ensures
        size == clamped_size(*grid_size),
        MIN_GRID_WIDTH <= size.width <= MAX_GRID_WIDTH,
        MIN_GRID_HEIGHT <= size.height <= MAX_GRID_HEIGHT,
{
    GridSize {
        width: clamp_side(grid_size.width, MIN_GRID_WIDTH, MAX_GRID_WIDTH),
        height: clamp_side(grid_size.height, MIN_GRID_HEIGHT, MAX_GRID_HEIGHT),
    }
}

/// The attach call for a requested grid and the multi-grid switch.
pub fn attach_request(requested: Option<GridSize>, no_multi_grid: bool) -> (request:
    AttachRequest)
    ensures
        request == attach_request_for(requested, no_multi_grid),
        20 <= request.width <= 10000,
        6 <= request.height <= 1000,
{
    let size = match requested {
        Some(size) => clamped_grid_size(&size),
        None => GridSize { width: DEFAULT_GRID_WIDTH, height: DEFAULT_GRID_HEIGHT },
    };
    AttachRequest {
        width: size.width as i64,
        height: size.height as i64,
        linegrid_external: true,
        multigrid_external: !no_multi_grid,
        rgb: true,
    }
}

/// A grid that is already within the range is attached as it is.
pub proof fn lemma_clamp_keeps_sizes_in_range(size: GridSize)
    requires
        20 <= size.width <= 10000,
        6 <= size.height <= 1000,
    ensures
        clamped_size(size) == size,
{
}

/// Clamping twice is clamping once.
pub proof fn lemma_clamp_idempotent(size: GridSize)
    ensures
        clamped_size(clamped_size(size)) == clamped_size(size),
{
}

} // verus!
