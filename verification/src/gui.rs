use vstd::prelude::*;

verus! {

pub const MAX_SPRITES: u32 = 40;

pub const MAX_LINE: u32 = 10;

pub const MAX_SPRITE_SIZE: u32 = 16;

pub const MIN_SPRITE_SIZE: u32 = 8;

/// The four shades a palette entry can select.
#[derive(Clone, Copy, PartialEq, Eq, Structural, Debug)]
pub enum Color {
    White,
    LightGray,
    DarkGray,
    Black,
}

/// The palette index of a shade: White 0, LightGray 1, DarkGray 2, Black 3.
pub open spec fn spec_color_index(c: Color) -> int {
    match c {
        Color::White => 0,
        Color::LightGray => 1,
        Color::DarkGray => 2,
        Color::Black => 3,
    }
}

impl Color {
    pub fn index(self) -> (r: usize)
        ensures
            r == spec_color_index(self),
    {
        match self {
            Color::White => 0,
            Color::LightGray => 1,
            Color::DarkGray => 2,
            Color::Black => 3,
        }
    }
}

/// One sprite attribute record, as decoded from sprite attribute memory.
#[derive(Clone, Copy, PartialEq, Eq, Structural, Debug)]
pub struct OAM {
    pub coord_x: u8,
    pub coord_y: u8,

    pub priority: u8,

    pub flip_h: bool,
    pub flip_v: bool,

    pub size_x: u32,
    pub size_y: u32,
}

pub const FRAME_WIDTH: usize = 160;

pub const FRAME_HEIGHT: usize = 144;

pub const FRAME_BYTES: usize = 69120;

pub const SPRITE_ATTRIB_SIZE: usize = 8192;

pub const CHAR_DATA_SIZE: usize = 6144;

pub const BG_MAP_SIZE: usize = 1024;

/// The video state: the LCD control and status registers decoded into
/// fields, the scroll and window positions, three palettes of four 2-bit
/// shades, and the address-relative memory blocks (tile data, the two
/// background maps, sprite attributes, and the rendered frame).
pub struct Gui {
    pub data: Vec<u8>,
    pub sprite_attrib: Vec<u8>,

    pub lcd_display: bool,

    pub window_tile_map: u32,

    pub window_display: bool,

    pub bg_window_tile_map: u32,

    pub bg_tile_map: u32,

    pub sprite_size: u32,

    pub sprite_display: bool,

    pub bg_display: bool,

    pub scroll_y: u8,
    pub scroll_x: u8,

    pub lyc: u8,

    pub color: Color,

    pub pallete_base: Vec<u16>,

    pub pallete_0: Vec<u16>,
    pub pallete_1: Vec<u16>,

    pub window_y: u8,
    pub window_x: u8,

    pub mode2: u8,
    pub mode1: u8,
    pub mode0: u8,

    pub coincidence: u8,
    pub mode_flag: u8,

    pub line: u8,

    pub char_data: Vec<u8>,
    pub bg_display_data_1: Vec<u8>,
    pub bg_display_data_2: Vec<u8>,
}

/// The mathematical state of the video registers and memories.
#[verifier::ext_equal]
pub struct GuiV {
    pub data: Seq<u8>,
    pub sprite_attrib: Seq<u8>,
    pub lcd_display: bool,
    pub window_tile_map: u32,
    pub window_display: bool,
    pub bg_window_tile_map: u32,
    pub bg_tile_map: u32,
    pub sprite_size: u32,
    pub sprite_display: bool,
    pub bg_display: bool,
    pub scroll_y: u8,
    pub scroll_x: u8,
    pub lyc: u8,
    pub color: Color,
    pub pallete_base: Seq<u16>,
    pub pallete_0: Seq<u16>,
    pub pallete_1: Seq<u16>,
    pub window_y: u8,
    pub window_x: u8,
    pub mode2: u8,
    pub mode1: u8,
    pub mode0: u8,
    pub coincidence: u8,
    pub mode_flag: u8,
    pub line: u8,
    pub char_data: Seq<u8>,
    pub bg_display_data_1: Seq<u8>,
    pub bg_display_data_2: Seq<u8>,
}

impl View for Gui {
    type V = GuiV;

    open spec fn view(&self) -> GuiV {
        GuiV {
            data: self.data@,
            sprite_attrib: self.sprite_attrib@,
            lcd_display: self.lcd_display,
            window_tile_map: self.window_tile_map,
            window_display: self.window_display,
            bg_window_tile_map: self.bg_window_tile_map,
            bg_tile_map: self.bg_tile_map,
            sprite_size: self.sprite_size,
            sprite_display: self.sprite_display,
            bg_display: self.bg_display,
            scroll_y: self.scroll_y,
            scroll_x: self.scroll_x,
            lyc: self.lyc,
            color: self.color,
            pallete_base: self.pallete_base@,
            pallete_0: self.pallete_0@,
            pallete_1: self.pallete_1@,
            window_y: self.window_y,
            window_x: self.window_x,
            mode2: self.mode2,
            mode1: self.mode1,
            mode0: self.mode0,
            coincidence: self.coincidence,
            mode_flag: self.mode_flag,
            line: self.line,
            char_data: self.char_data@,
            bg_display_data_1: self.bg_display_data_1@,
            bg_display_data_2: self.bg_display_data_2@,
        }
    }
}

/// The memory blocks keep their fixed sizes and the palettes their four
/// entries.
pub open spec fn gui_wf(g: GuiV) -> bool {
    g.data.len() == FRAME_BYTES && g.sprite_attrib.len() == SPRITE_ATTRIB_SIZE && g.char_data.len()
        == CHAR_DATA_SIZE && g.bg_display_data_1.len() == BG_MAP_SIZE && g.bg_display_data_2.len()
        == BG_MAP_SIZE && g.pallete_base.len() == 4 && g.pallete_0.len() == 4 && g.pallete_1.len()
        == 4
}

/// The byte index of one colour channel of one frame pixel.
pub open spec fn pixel_index(x: int, y: int, channel: int) -> int {
    (x * 144 + y) * 3 + channel
}

/// The power-up video state.
pub open spec fn spec_gui_new() -> GuiV {
    GuiV {
        data: Seq::new(FRAME_BYTES as nat, |i: int| 0u8),
        sprite_attrib: Seq::new(SPRITE_ATTRIB_SIZE as nat, |i: int| 0u8),
        lcd_display: false,
        window_tile_map: 0x9800,
        window_display: false,
        bg_window_tile_map: 0x8800,
        bg_tile_map: 0x9800,
        sprite_size: MIN_SPRITE_SIZE,
        sprite_display: false,
        bg_display: false,
        scroll_y: 0,
        scroll_x: 0,
        lyc: 0,
        color: Color::White,
        pallete_base: seq![0u16, 0u16, 0u16, 0u16],
        pallete_0: seq![0u16, 0u16, 0u16, 0u16],
        pallete_1: seq![0u16, 0u16, 0u16, 0u16],
        window_y: 0,
        window_x: 0,
        mode2: 0,
        mode1: 0,
        mode0: 0,
        coincidence: 0,
        mode_flag: 0,
        line: 0,
        char_data: Seq::new(CHAR_DATA_SIZE as nat, |i: int| 0u8),
        bg_display_data_1: Seq::new(BG_MAP_SIZE as nat, |i: int| 0u8),
        bg_display_data_2: Seq::new(BG_MAP_SIZE as nat, |i: int| 0u8),
    }
}

fn zero_bytes(n: usize) -> (r: Vec<u8>)
    ensures
        r@ == Seq::new(n as nat, |i: int| 0u8),
        r@.len() == n,
{
    let mut data: Vec<u8> = Vec::new();
    let mut i: usize = 0;
    while i < n
        invariant
            i <= n,
            data@.len() == i,
            forall|j: int| 0 <= j < i ==> data@[j] == 0u8,
        decreases n - i,
    {
        data.push(0);
        i = i + 1;
    }
    proof {
        assert(data@ =~= Seq::new(n as nat, |i: int| 0u8));
    }
    data
}

fn zero_palette() -> (r: Vec<u16>)
    ensures
        r@ == seq![0u16, 0u16, 0u16, 0u16],
{
    let mut p: Vec<u16> = Vec::new();
    p.push(0);
    p.push(0);
    p.push(0);
    p.push(0);
    proof {
        assert(p@ =~= seq![0u16, 0u16, 0u16, 0u16]);
    }
    p
}

impl Gui {
    pub fn new() -> (r: Gui)
        ensures
            r@ == spec_gui_new(),
            gui_wf(r@),
    {
        let r = Gui {
            data: zero_bytes(FRAME_BYTES),
            sprite_attrib: zero_bytes(SPRITE_ATTRIB_SIZE),

            lcd_display: false,

            window_tile_map: 0x9800,

            window_display: false,

            bg_window_tile_map: 0x8800,

            bg_tile_map: 0x9800,

            sprite_size: MIN_SPRITE_SIZE,

            sprite_display: false,

            bg_display: false,

            scroll_y: 0,
            scroll_x: 0,

            lyc: 0,

            color: Color::White,

            pallete_base: zero_palette(),

            pallete_0: zero_palette(),
            pallete_1: zero_palette(),

            window_y: 0,
            window_x: 0,

            mode2: 0,
            mode1: 0,
            mode0: 0,

            coincidence: 0,
            mode_flag: 0,

            line: 0,

            char_data: zero_bytes(CHAR_DATA_SIZE),
            bg_display_data_1: zero_bytes(BG_MAP_SIZE),
            bg_display_data_2: zero_bytes(BG_MAP_SIZE),
        };
        proof {
            assert(r@ =~= spec_gui_new());
        }
        r
    }

    /// Paints one red probe pixel in the corner and one at the centre of the
    /// frame, so a presentation layer has something to detect.
    pub fn test_draw(&mut self)
        requires
            gui_wf(old(self)@),
        ensures
            final(self)@ == (GuiV {
                data: old(self)@.data.update(pixel_index(0, 0, 0), 0xFFu8).update(
                    pixel_index(0, 0, 1),
                    0x00u8,
                ).update(pixel_index(0, 0, 2), 0x00u8).update(pixel_index(80, 72, 0), 0xFFu8)
                    .update(pixel_index(80, 72, 1), 0x00u8).update(pixel_index(80, 72, 2), 0x00u8),
                ..old(self)@
            }),
            gui_wf(final(self)@),
    {
        self.data.set(0, 0xFF);
        self.data.set(1, 0x00);
        self.data.set(2, 0x00);

        self.data.set((80 * 144 + 72) * 3, 0xFF);
        self.data.set((80 * 144 + 72) * 3 + 1, 0x00);
        self.data.set((80 * 144 + 72) * 3 + 2, 0x00);
        proof {
            assert(final(self)@ =~= (GuiV {
                data: old(self)@.data.update(pixel_index(0, 0, 0), 0xFFu8).update(
                    pixel_index(0, 0, 1),
                    0x00u8,
                ).update(pixel_index(0, 0, 2), 0x00u8).update(pixel_index(80, 72, 0), 0xFFu8)
                    .update(pixel_index(80, 72, 1), 0x00u8).update(pixel_index(80, 72, 2), 0x00u8),
                ..old(self)@
            }));
        }
    }

    /// The pixel at (x, y) packed as 0xRRGGBB.
    pub fn get_data(&self, x: usize, y: usize) -> (r: u32)
        requires
            gui_wf(self@),
            x < FRAME_WIDTH,
            y < FRAME_HEIGHT,
        ensures
            r == self@.data[pixel_index(x as int, y as int, 0)] * 0x10000 + self@.data[pixel_index(
                x as int,
                y as int,
                1,
            )] * 0x100 + self@.data[pixel_index(x as int, y as int, 2)],
    {
        let base: usize = (x * 144 + y) * 3;
        let c1 = self.data[base] as u32;
        let c2 = self.data[base + 1] as u32;
        let c3 = self.data[base + 2] as u32;

        c1 * 0x10000 + c2 * 0x100 + c3
    }

    pub fn store_bg_display_data_1(&mut self, offset: u16, value: u8)
        requires
            gui_wf(old(self)@),
            offset < BG_MAP_SIZE,
        ensures
            final(self)@ == (GuiV {
                bg_display_data_1: old(self)@.bg_display_data_1.update(offset as int, value),
                ..old(self)@
            }),
            gui_wf(final(self)@),
    {
        self.bg_display_data_1.set(offset as usize, value);
    }

    pub fn load_bg_display_data_1(&self, offset: u16) -> (r: u8)
        requires
            gui_wf(self@),
            offset < BG_MAP_SIZE,
        ensures
            r == self@.bg_display_data_1[offset as int],
    {
        self.bg_display_data_1[offset as usize]
    }

    pub fn store_bg_display_data_2(&mut self, offset: u16, value: u8)
        requires
            gui_wf(old(self)@),
            offset < BG_MAP_SIZE,
        ensures
            final(self)@ == (GuiV {
                bg_display_data_2: old(self)@.bg_display_data_2.update(offset as int, value),
                ..old(self)@
            }),
            gui_wf(final(self)@),
    {
        self.bg_display_data_2.set(offset as usize, value);
    }

    pub fn load_bg_display_data_2(&self, offset: u16) -> (r: u8)
        requires
            gui_wf(self@),
            offset < BG_MAP_SIZE,
        ensures
            r == self@.bg_display_data_2[offset as int],
    {
        self.bg_display_data_2[offset as usize]
    }

    pub fn load_sprite(&self, offset: u16) -> (r: u8)
        requires
            gui_wf(self@),
            offset < SPRITE_ATTRIB_SIZE,
        ensures
            r == self@.sprite_attrib[offset as int],
    {
        self.sprite_attrib[offset as usize]
    }

    pub fn store_sprite(&mut self, offset: u16, value: u8)
        requires
            gui_wf(old(self)@),
            offset < SPRITE_ATTRIB_SIZE,
        ensures
            final(self)@ == (GuiV {
                sprite_attrib: old(self)@.sprite_attrib.update(offset as int, value),
                ..old(self)@
            }),
            gui_wf(final(self)@),
    {
        self.sprite_attrib.set(offset as usize, value);
    }

    pub fn load_char_data(&self, offset: u16) -> (r: u8)
        requires
            gui_wf(self@),
            offset < CHAR_DATA_SIZE,
        ensures
            r == self@.char_data[offset as int],
    {
        self.char_data[offset as usize]
    }

    pub fn store_char_data(&mut self, offset: u16, value: u8)
        requires
            gui_wf(old(self)@),
            offset < CHAR_DATA_SIZE,
        ensures
            final(self)@ == (GuiV {
                char_data: old(self)@.char_data.update(offset as int, value),
                ..old(self)@
            }),
            gui_wf(final(self)@),
    {
        self.char_data.set(offset as usize, value);
    }
}

} // verus!
