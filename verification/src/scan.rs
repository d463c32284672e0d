use vstd::prelude::*;

use bytes::Bytes;

use crate::frame::{bytes_contents, bytes_from_vec};
use crate::pixel::PixelRGBA;
use crate::sstv::SSTVMode;

verus! {

/// Samples per analysis window.
pub const FFT_SIZE: usize = 1024;

/// Pixels per scanline of the decoded image.
pub const WIDTH: usize = 320;

/// Scanlines of the decoded image.
pub const HEIGHT: usize = 256;

/// Where the signal to decode comes from.
#[derive(Debug, Clone, Copy, PartialEq, Eq, Structural)]
pub enum DecoderSource {
    File,
    Microphone,
    Soundcard,
}

/// What the user or a running decode reports to the front end.
pub enum Message {
    FilePathChanged(String),
    PlayToggled(bool),
    DecoderSourceChanged(DecoderSource),
    ModeChanged(SSTVMode),
    StartDecode,
    DecodeProgress(Vec<PixelRGBA>),
    DecodeComplete(Result<(), ()>),
    PlaceHolder,
}

impl Clone for Message {
    fn clone(&self) -> Self {
        match self {
            Message::FilePathChanged(path) => Message::FilePathChanged(path.clone()),
            Message::PlayToggled(play) => Message::PlayToggled(*play),
            Message::DecoderSourceChanged(source) => Message::DecoderSourceChanged(*source),
            Message::ModeChanged(mode) => Message::ModeChanged(*mode),
            Message::StartDecode => Message::StartDecode,
            Message::DecodeProgress(scanline) => Message::DecodeProgress(scanline.clone()),
            Message::DecodeComplete(outcome) => Message::DecodeComplete(
                match outcome {
                    Ok(()) => Ok(()),
                    Err(()) => Err(()),
                },
            ),
            Message::PlaceHolder => Message::PlaceHolder,
        }
    }
}

/// What the front end has to do outside its own state after a message.
pub enum Effect {
    /// Nothing.
    Idle,
    /// Open the file at `filepath` and decode it, playing it back while
    /// decoding when `play_audio` is set.
    BeginDecode { filepath: String, play_audio: bool },
    /// Tell the user that decoding has finished.
    AnnounceCompletion,
}

/// The state of the decoding front end: the user's choices and the image
/// decoded so far, `WIDTH` pixels by `HEIGHT` scanlines, row after row.
pub struct SlowScan {
    pub play_while_decoding: bool,
    pub selected_source: Option<DecoderSource>,
    pub should_display_file_widgets: bool,
    pub selected_mode: Option<SSTVMode>,
    pub filepath: String,
    pub pixels: Vec<PixelRGBA>,
    pub curr_scanline: usize,
}

/// `pixels` after scanline `row` has been written with `line`: the pixels of
/// the row are replaced, from its start, by as many pixels of `line` as both
/// have; every other pixel stays.
pub open spec fn scanline_written(
    pixels: Seq<PixelRGBA>,
    row: int,
    line: Seq<PixelRGBA>,
) -> Seq<PixelRGBA> {
    let start = row * WIDTH;
    let count = if line.len() < WIDTH { line.len() as int } else { WIDTH as int };
    Seq::new(
        pixels.len(),
        |i: int|
            if start <= i < start + count {
                line[i - start]
            } else {
                pixels[i]
            },
    )
}

/// The bytes of an image in RGBA order: four per pixel, red first.
pub open spec fn rgba_bytes(pixels: Seq<PixelRGBA>) -> Seq<u8> {
    Seq::new(pixels.len() * 4, |i: int| pixels[i / 4].channels()[i % 4])
}

/// `after` is `before` once the scanline `line` has been handed to it: while
/// rows are left, `line` is written into the current row and the counter moves
/// to the next row; after the last row nothing changes. The user's choices
/// stay as they were.
pub open spec fn scanline_taken(before: SlowScan, after: SlowScan, line: Seq<PixelRGBA>) -> bool {
    if before.curr_scanline >= HEIGHT {
        after == before
    } else {
        &&& after.pixels@ == scanline_written(before.pixels@, before.curr_scanline as int, line)
        &&& after.curr_scanline == before.curr_scanline + 1
        &&& after.play_while_decoding == before.play_while_decoding
        &&& after.selected_source == before.selected_source
        &&& after.should_display_file_widgets == before.should_display_file_widgets
        &&& after.selected_mode == before.selected_mode
        &&& after.filepath == before.filepath
    }
}

impl SlowScan {
    /// The image is complete in size and the scanline counter has not run
    /// past its last row.
    pub open spec fn wf(&self) -> bool {
        &&& self.pixels.len() == WIDTH * HEIGHT
        &&& self.curr_scanline <= HEIGHT
    }

    /// The next scanline, if any is left, has all its pixels in the image.
    pub open spec fn can_take_scanline(&self) -> bool {
        self.curr_scanline < HEIGHT ==> (self.curr_scanline + 1) * WIDTH <= self.pixels.len()
    }

    /// The front end before any input: nothing chosen, an empty path, and an
    /// image of opaque black pixels with no scanline decoded yet.
    pub fn new() -> (scan: Self)
        ensures
            scan.wf(),
            !scan.play_while_decoding,
            (scan.selected_source is None),
            !scan.should_display_file_widgets,
            (scan.selected_mode is None),
            scan.filepath@ == Seq::<char>::empty(),
            scan.curr_scanline == 0,
            forall|i: int|
                0 <= i < scan.pixels.len() ==> #[trigger] scan.pixels[i] == (PixelRGBA {
                    r: 0,
                    g: 0,
                    b: 0,
                    a: 255,
                }),
    {
        let black = PixelRGBA::default();
        let mut pixels: Vec<PixelRGBA> = Vec::new();
        let total = WIDTH * HEIGHT;
        while pixels.len() < total
            invariant
                total == WIDTH * HEIGHT,
                pixels.len() <= total,
                black == (PixelRGBA { r: 0, g: 0, b: 0, a: 255 }),
                forall|i: int| 0 <= i < pixels.len() ==> #[trigger] pixels[i] == black,
            decreases total - pixels.len(),
        {
            pixels.push(black);
        }
        proof {
            reveal_strlit("");
        }
        SlowScan {
            play_while_decoding: false,
            selected_source: None,
            should_display_file_widgets: false,
            selected_mode: None,
            filepath: String::from_str(""),
            pixels,
            curr_scanline: 0,
        }
    }

    /// The window title.
    pub fn title(&self) -> (title: String)
        ensures
            title@ == "slowscan"@,
    {
        String::from_str("slowscan")
    }

    /// Writes a decoded scanline into the next row of the image and moves on
    /// to the row after it; once every row is written, further scanlines are
    /// ignored.
    pub fn update_scanline(&mut self, new_scanline: Vec<PixelRGBA>)
        requires
            old(self).can_take_scanline(),
        ensures
            scanline_taken(*old(self), *final(self), new_scanline@),
            old(self).curr_scanline < HEIGHT ==> final(self).pixels.len() == old(self).pixels.len(),
            old(self).curr_scanline < HEIGHT ==> forall|j: int|
                0 <= j < WIDTH && j < new_scanline.len() ==> #[trigger] final(self).pixels[old(self).curr_scanline
                    * WIDTH + j] == new_scanline[j],
            old(self).curr_scanline < HEIGHT ==> forall|i: int|
                0 <= i < old(self).pixels.len() && !(old(self).curr_scanline * WIDTH <= i
                    < old(self).curr_scanline * WIDTH + WIDTH && i < old(self).curr_scanline * WIDTH
                    + new_scanline.len()) ==> #[trigger] final(self).pixels[i] == old(self).pixels[i],
    {
        if self.curr_scanline >= HEIGHT {
            return;
        }
        let scanline_start = WIDTH * self.curr_scanline;
        let count = if new_scanline.len() < WIDTH {
            new_scanline.len()
        } else {
            WIDTH
        };
        let ghost before = self.pixels@;
        let mut j: usize = 0;
        while j < count
            invariant
                scanline_start == WIDTH * self.curr_scanline,
                self.curr_scanline < HEIGHT,
                scanline_start + WIDTH <= self.pixels.len(),
                count <= WIDTH,
                count <= new_scanline.len(),
                count == (if new_scanline.len() < WIDTH { new_scanline.len() } else { WIDTH }),
                j <= count,
                self.pixels.len() == before.len(),
                before == old(self).pixels@,
                self.curr_scanline == old(self).curr_scanline,
                self.play_while_decoding == old(self).play_while_decoding,
                self.selected_source == old(self).selected_source,
                self.should_display_file_widgets == old(self).should_display_file_widgets,
                self.selected_mode == old(self).selected_mode,
                self.filepath == old(self).filepath,
                forall|i: int|
                    0 <= i < self.pixels.len() ==> #[trigger] self.pixels[i] == if scanline_start
                        <= i < scanline_start + j {
                        new_scanline[i - scanline_start]
                    } else {
                        before[i]
                    },
            decreases count - j,
        {
            self.pixels.set(scanline_start + j, new_scanline[j]);
            j = j + 1;
        }
        assert(self.pixels@ =~= scanline_written(
            before,
            self.curr_scanline as int,
            new_scanline@,
        ));
        self.curr_scanline = self.curr_scanline + 1;
    }

    /// The image as RGBA bytes, four per pixel, row after row.
    pub fn pixels_to_bytes(&self) -> (buffer: Bytes)
        ensures
            bytes_contents(buffer) == rgba_bytes(self.pixels@),
            bytes_contents(buffer).len() == 4 * self.pixels.len(),
            forall|p: int|
                0 <= p < self.pixels.len() ==> {
                    &&& bytes_contents(buffer)[4 * p] == (#[trigger] self.pixels[p]).r
                    &&& bytes_contents(buffer)[4 * p + 1] == self.pixels[p].g
                    &&& bytes_contents(buffer)[4 * p + 2] == self.pixels[p].b
                    &&& bytes_contents(buffer)[4 * p + 3] == self.pixels[p].a
                },
    {
        let mut pixels_split: Vec<u8> = Vec::new();
        let n = self.pixels.len();
        let mut i: usize = 0;
        while i < n
            invariant
                n == self.pixels.len(),
                i <= n,
                pixels_split.len() == 4 * i,
                forall|k: int|
                    0 <= k < 4 * i ==> #[trigger] pixels_split[k] == self.pixels@[k / 4].channels()[k
                        % 4],
            decreases n - i,
        {
            let pixel = self.pixels[i];
            let mut channels: Vec<u8> = Vec::from(pixel);
            let ghost prev = pixels_split@;
            pixels_split.append(&mut channels);
            assert forall|k: int| 0 <= k < 4 * (i + 1) implies #[trigger] pixels_split[k]
                == self.pixels@[k / 4].channels()[k % 4] by {
                if k >= 4 * i {
                    assert(k / 4 == i as int);
                    assert(k % 4 == k - 4 * i);
                }
            }
            i = i + 1;
        }
        assert(pixels_split@ =~= rgba_bytes(self.pixels@));
        proof {
            lemma_rgba_bytes_layout(self.pixels@);
        }
        bytes_from_vec(pixels_split)
    }

    /// Handles one message: records the user's choice, restarts the scanline
    /// counter when a decode is started, takes in a decoded scanline, and says
    /// what has to happen outside the front end's own state.
    pub fn update(&mut self, message: Message) -> (effect: Effect)
        requires
            (message is DecodeProgress) ==> old(self).can_take_scanline(),
        ensures
            old(self).wf() ==> final(self).wf(),
            match message {
                Message::FilePathChanged(path) => {
                    &&& *final(self) == (SlowScan { filepath: path, ..*old(self) })
                    &&& effect is Idle
                },
                Message::PlayToggled(play) => {
                    &&& *final(self) == (SlowScan { play_while_decoding: play, ..*old(self) })
                    &&& effect is Idle
                },
                Message::DecoderSourceChanged(source) => {
                    &&& *final(self) == (SlowScan {
                        should_display_file_widgets: source == DecoderSource::File,
                        selected_source: Some(source),
                        ..*old(self)
                    })
                    &&& effect is Idle
                },
                Message::ModeChanged(mode) => {
                    &&& *final(self) == (SlowScan { selected_mode: Some(mode), ..*old(self) })
                    &&& effect is Idle
                },
                Message::StartDecode => {
                    &&& *final(self) == (SlowScan { curr_scanline: 0, ..*old(self) })
                    &&& effect == (Effect::BeginDecode {
                        filepath: old(self).filepath,
                        play_audio: old(self).play_while_decoding,
                    })
                },
                Message::DecodeProgress(scanline) => {
                    &&& scanline_taken(*old(self), *final(self), scanline@)
                    &&& old(self).curr_scanline < HEIGHT ==> final(self).pixels.len() == old(self).pixels.len()
                    &&& old(self).curr_scanline < HEIGHT ==> forall|j: int|
                            0 <= j < WIDTH && j < scanline.len() ==> #[trigger] final(self).pixels[old(self).curr_scanline
                                * WIDTH + j] == scanline[j]
                    &&& old(self).curr_scanline < HEIGHT ==> forall|i: int|
                            0 <= i < old(self).pixels.len() && !(old(self).curr_scanline * WIDTH <= i
                                < old(self).curr_scanline * WIDTH + WIDTH && i < old(self).curr_scanline * WIDTH
                                + scanline.len()) ==> #[trigger] final(self).pixels[i] == old(self).pixels[i]
                    &&& effect is Idle
                },
                Message::DecodeComplete(_) => {
                    &&& *final(self) == *old(self)
                    &&& effect is AnnounceCompletion
                },
                Message::PlaceHolder => {
                    &&& *final(self) == *old(self)
                    &&& effect is Idle
                },
            },
    {
        match message {
            Message::FilePathChanged(new_path) => {
                self.filepath = new_path;
                Effect::Idle
            },
            Message::PlayToggled(should_play_audio) => {
                self.play_while_decoding = should_play_audio;
                Effect::Idle
            },
            Message::DecoderSourceChanged(source) => {
                self.should_display_file_widgets = matches!(source, DecoderSource::File);
                self.selected_source = Some(source);
                Effect::Idle
            },
            Message::ModeChanged(mode) => {
                self.selected_mode = Some(mode);
                Effect::Idle
            },
            Message::StartDecode => {
                self.curr_scanline = 0;
                Effect::BeginDecode {
                    filepath: self.filepath.clone(),
                    play_audio: self.play_while_decoding,
                }
            },
            Message::DecodeProgress(scanline) => {
                self.update_scanline(scanline);
                Effect::Idle
            },
            Message::DecodeComplete(_) => Effect::AnnounceCompletion,
            Message::PlaceHolder => Effect::Idle,
        }
    }
}

/// Each scanline handed to the front end moves the counter on by one row until
/// the image is full, and never past its last row.
pub proof fn lemma_scanline_counter_saturates(before: SlowScan, after: SlowScan, line: Seq<PixelRGBA>)
    requires
        before.curr_scanline <= HEIGHT,
        scanline_taken(before, after, line),
    ensures
        after.curr_scanline == if before.curr_scanline < HEIGHT {
            before.curr_scanline + 1
        } else {
            HEIGHT as int
        },
        after.curr_scanline <= HEIGHT,
{
}

/// Writing a scanline leaves every row but the current one as it was, and
/// within the current row changes only as many pixels as the scanline has.
pub proof fn lemma_scanline_touches_only_its_row(
    pixels: Seq<PixelRGBA>,
    row: int,
    line: Seq<PixelRGBA>,
    i: int,
)
    requires
        0 <= i < pixels.len(),
        !(row * WIDTH <= i < row * WIDTH + WIDTH) || i >= row * WIDTH + line.len(),
    ensures
        scanline_written(pixels, row, line)[i] == pixels[i],
{
}

/// A well-formed front end always has room for the next scanline, so any
/// message can be handed to it.
pub proof fn lemma_wf_can_take_scanline(scan: SlowScan)
    requires
        scan.wf(),
    ensures
        scan.can_take_scanline(),
{
    if scan.curr_scanline < HEIGHT {
        assert((scan.curr_scanline + 1) * WIDTH <= WIDTH * HEIGHT) by (nonlinear_arith)
            requires
                scan.curr_scanline < HEIGHT,
        ;
    }
}

/// In the RGBA byte stream of any image, pixel `p` occupies bytes `4p` to
/// `4p + 3`, as red, green, blue and alpha, and there is nothing else.
pub proof fn lemma_rgba_bytes_layout(pixels: Seq<PixelRGBA>)
    ensures
        rgba_bytes(pixels).len() == 4 * pixels.len(),
        forall|p: int|
            0 <= p < pixels.len() ==> {
                &&& rgba_bytes(pixels)[4 * p] == (#[trigger] pixels[p]).r
                &&& rgba_bytes(pixels)[4 * p + 1] == pixels[p].g
                &&& rgba_bytes(pixels)[4 * p + 2] == pixels[p].b
                &&& rgba_bytes(pixels)[4 * p + 3] == pixels[p].a
            },
{
    assert forall|p: int| 0 <= p < pixels.len() implies {
        &&& rgba_bytes(pixels)[4 * p] == (#[trigger] pixels[p]).r
        &&& rgba_bytes(pixels)[4 * p + 1] == pixels[p].g
        &&& rgba_bytes(pixels)[4 * p + 2] == pixels[p].b
        &&& rgba_bytes(pixels)[4 * p + 3] == pixels[p].a
    } by {
        assert((4 * p) / 4 == p && (4 * p) % 4 == 0);
        assert((4 * p + 1) / 4 == p && (4 * p + 1) % 4 == 1);
        assert((4 * p + 2) / 4 == p && (4 * p + 2) % 4 == 2);
        assert((4 * p + 3) / 4 == p && (4 * p + 3) % 4 == 3);
    }
}

/// Writing `line` into row `row` of any image puts pixel `j` of the line at
/// column `j` of that row, for every `j` that both have, and leaves every
/// other pixel as it was.
pub proof fn lemma_scanline_written_columns(pixels: Seq<PixelRGBA>, row: int, line: Seq<PixelRGBA>)
    requires
        0 <= row,
        (row + 1) * WIDTH <= pixels.len(),
    ensures
        scanline_written(pixels, row, line).len() == pixels.len(),
        forall|j: int|
            0 <= j < WIDTH && j < line.len() ==> #[trigger] scanline_written(pixels, row, line)[row
                * WIDTH + j] == line[j],
        forall|i: int|
            0 <= i < pixels.len() && !(row * WIDTH <= i < row * WIDTH + WIDTH && i < row * WIDTH
                + line.len()) ==> #[trigger] scanline_written(pixels, row, line)[i] == pixels[i],
{
}

} // verus!
