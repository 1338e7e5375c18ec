//! State of the filter dialog: the tab shown, the selection, and the custom
//! filter text being typed.

use vstd::prelude::*;
use crate::domain::filter::{
    AudioFilter, DenoiseStrength, FadeType, Filter, FilterChain, RotationAngle, ScaleDimension,
    VideoFilter,
};
use crate::quantity::Decimal;
use crate::text::{pop_char, push_char};

verus! {

/// Tabs of the filter dialog.
#[derive(Debug, Clone, Copy, PartialEq, Eq, Structural)]
pub enum FilterTab {
    Video,
    Audio,
    Active,
}

impl FilterTab {
    /// The tabs, in the order they are cycled through.
    pub open spec fn spec_all() -> Seq<FilterTab> {
        seq![FilterTab::Video, FilterTab::Audio, FilterTab::Active]
    }

    /// Returns the tabs in order.
    pub fn all() -> (res: &'static [FilterTab])
        ensures
            res@ == Self::spec_all(),
    {
        &[FilterTab::Video, FilterTab::Audio, FilterTab::Active]
    }

    /// The title of the tab.
    pub open spec fn spec_title(self) -> Seq<char> {
        match self {
            FilterTab::Video => "Video Filters"@,
            FilterTab::Audio => "Audio Filters"@,
            FilterTab::Active => "Active Filters"@,
        }
    }

    /// Returns the title of the tab.
    pub fn title(&self) -> (res: &'static str)
        ensures
            res@ == self.spec_title(),
    {
        match self {
            FilterTab::Video => "Video Filters",
            FilterTab::Audio => "Audio Filters",
            FilterTab::Active => "Active Filters",
        }
    }

    /// The tab after this one, wrapping around.
    pub open spec fn spec_next(self) -> FilterTab {
        match self {
            FilterTab::Video => FilterTab::Audio,
            FilterTab::Audio => FilterTab::Active,
            FilterTab::Active => FilterTab::Video,
        }
    }

    /// The tab before this one, wrapping around.
    pub open spec fn spec_prev(self) -> FilterTab {
        match self {
            FilterTab::Video => FilterTab::Active,
            FilterTab::Audio => FilterTab::Video,
            FilterTab::Active => FilterTab::Audio,
        }
    }
}

impl Default for FilterTab {
    fn default() -> (res: Self)
        ensures
            res == FilterTab::Video,
    {
        FilterTab::Video
    }
}

/// A ready-made filter offered in the dialog.
#[derive(Debug)]
pub struct FilterPresetItem {
    pub label: &'static str,
    pub description: &'static str,
    pub filter: Filter,
}

impl Clone for FilterPresetItem {
    fn clone(&self) -> (res: Self)
        ensures
            res == *self,
    {
        FilterPresetItem { label: self.label, description: self.description, filter: self.filter.clone() }
    }
}

/// Whether `items` is the list of video filter presets offered by the dialog.
pub open spec fn is_video_preset_list(items: Seq<FilterPresetItem>) -> bool {
    &&& items.len() == 15
    &&& items[0].label@ == "Scale 1080p"@ && items[0].description@ == "Resize video to 1920x1080 resolution"@
    &&& items[0].filter == Filter::Video(VideoFilter::Scale { width: ScaleDimension::Exact(1920), height: ScaleDimension::Exact(1080) })
    &&& items[1].label@ == "Scale 720p"@ && items[1].description@ == "Resize video to 1280x720 resolution"@
    &&& items[1].filter == Filter::Video(VideoFilter::Scale { width: ScaleDimension::Exact(1280), height: ScaleDimension::Exact(720) })
    &&& items[2].label@ == "Scale 4K"@ && items[2].description@ == "Resize video to 3840x2160 ultra HD"@
    &&& items[2].filter == Filter::Video(VideoFilter::Scale { width: ScaleDimension::Exact(3840), height: ScaleDimension::Exact(2160) })
    &&& items[3].label@ == "Scale Auto Height (1080p)"@ && items[3].description@ == "Maintain aspect ratio with height 1080"@
    &&& items[3].filter == Filter::Video(VideoFilter::Scale { width: ScaleDimension::KeepAspect, height: ScaleDimension::Exact(1080) })
    &&& items[4].label@ == "FPS 30"@ && items[4].description@ == "Convert video frame rate to 30 fps"@
    &&& items[4].filter == Filter::Video(VideoFilter::Fps { rate: Decimal { thousandths: 30000 } })
    &&& items[5].label@ == "FPS 60"@ && items[5].description@ == "Convert video frame rate to 60 fps"@
    &&& items[5].filter == Filter::Video(VideoFilter::Fps { rate: Decimal { thousandths: 60000 } })
    &&& items[6].label@ == "Rotate 90° Clockwise"@ && items[6].description@ == "Rotate video 90 degrees CW (transpose=1)"@
    &&& items[6].filter == Filter::Video(VideoFilter::Rotate { angle: RotationAngle::Clockwise90 })
    &&& items[7].label@ == "Rotate 90° Counter-Clockwise"@ && items[7].description@ == "Rotate video 90 degrees CCW (transpose=2)"@
    &&& items[7].filter == Filter::Video(VideoFilter::Rotate { angle: RotationAngle::CounterClockwise90 })
    &&& items[8].label@ == "Rotate 180°"@ && items[8].description@ == "Rotate video upside down (180 degrees)"@
    &&& items[8].filter == Filter::Video(VideoFilter::Rotate { angle: RotationAngle::Rotate180 })
    &&& items[9].label@ == "Flip Horizontal"@ && items[9].description@ == "Mirror video horizontally (hflip)"@
    &&& items[9].filter == Filter::Video(VideoFilter::Rotate { angle: RotationAngle::FlipHorizontal })
    &&& items[10].label@ == "Flip Vertical"@ && items[10].description@ == "Flip video vertically (vflip)"@
    &&& items[10].filter == Filter::Video(VideoFilter::Rotate { angle: RotationAngle::FlipVertical })
    &&& items[11].label@ == "Deinterlace"@ && items[11].description@ == "Deinterlace interlaced video using yadif"@
    &&& items[11].filter == Filter::Video(VideoFilter::Deinterlace)
    &&& items[12].label@ == "Denoise (Medium)"@ && items[12].description@ == "Reduce video noise using hqdn3d filter"@
    &&& items[12].filter == Filter::Video(VideoFilter::Denoise { strength: DenoiseStrength::Medium })
    &&& items[13].label@ == "Sharpen"@ && items[13].description@ == "Sharpen video details using unsharp filter"@
    &&& items[13].filter == Filter::Video(VideoFilter::Sharpen { amount: Decimal { thousandths: 1000 } })
    &&& items[14].label@ == "Custom Video Filter"@ && items[14].description@ == "Type an arbitrary FFmpeg video filter string (-vf)"@
    &&& items[14].filter matches Filter::Video(VideoFilter::Custom { filter_string }) && filter_string@.len() == 0
}

/// Whether `items` is the list of audio filter presets offered by the dialog.
pub open spec fn is_audio_preset_list(items: Seq<FilterPresetItem>) -> bool {
    &&& items.len() == 13
    &&& items[0].label@ == "Normalize Volume (EBU R128)"@ && items[0].description@ == "Normalize audio loudness using loudnorm"@
    &&& items[0].filter == Filter::Audio(AudioFilter::Normalize)
    &&& items[1].label@ == "Volume +50%"@ && items[1].description@ == "Increase volume level to 1.5"@
    &&& items[1].filter == Filter::Audio(AudioFilter::Volume { level: Decimal { thousandths: 1500 } })
    &&& items[2].label@ == "Volume -50%"@ && items[2].description@ == "Decrease volume level to 0.5"@
    &&& items[2].filter == Filter::Audio(AudioFilter::Volume { level: Decimal { thousandths: 500 } })
    &&& items[3].label@ == "Fade In (2 sec)"@ && items[3].description@ == "Apply audio fade in over 2 seconds"@
    &&& items[3].filter == Filter::Audio(AudioFilter::Fade { fade_type: FadeType::In, start: Decimal { thousandths: 0 }, duration: Decimal { thousandths: 2000 } })
    &&& items[4].label@ == "Fade Out (3 sec)"@ && items[4].description@ == "Apply audio fade out over 3 seconds"@
    &&& items[4].filter == Filter::Audio(AudioFilter::Fade { fade_type: FadeType::Out, start: Decimal { thousandths: 0 }, duration: Decimal { thousandths: 3000 } })
    &&& items[5].label@ == "High Pass Filter (100Hz)"@ && items[5].description@ == "Cut off low frequencies below 100Hz"@
    &&& items[5].filter == Filter::Audio(AudioFilter::HighPass { frequency: Decimal { thousandths: 100000 } })
    &&& items[6].label@ == "Low Pass Filter (12kHz)"@ && items[6].description@ == "Cut off high frequencies above 12kHz"@
    &&& items[6].filter == Filter::Audio(AudioFilter::LowPass { frequency: Decimal { thousandths: 12000000 } })
    &&& items[7].label@ == "Resample 48kHz"@ && items[7].description@ == "Resample audio sample rate to 48000Hz"@
    &&& items[7].filter == Filter::Audio(AudioFilter::Resample { rate: 48000 })
    &&& items[8].label@ == "Resample 44.1kHz"@ && items[8].description@ == "Resample audio sample rate to 44100Hz"@
    &&& items[8].filter == Filter::Audio(AudioFilter::Resample { rate: 44100 })
    &&& items[9].label@ == "Channels: Stereo (2ch)"@ && items[9].description@ == "Convert audio channel layout to stereo"@
    &&& items[9].filter == Filter::Audio(AudioFilter::Channels { count: 2 })
    &&& items[10].label@ == "Channels: Mono (1ch)"@ && items[10].description@ == "Convert audio channel layout to mono"@
    &&& items[10].filter == Filter::Audio(AudioFilter::Channels { count: 1 })
    &&& items[11].label@ == "Tempo 1.25x"@ && items[11].description@ == "Adjust audio tempo speed to 1.25x without pitch shift"@
    &&& items[11].filter == Filter::Audio(AudioFilter::Tempo { rate: Decimal { thousandths: 1250 } })
    &&& items[12].label@ == "Custom Audio Filter"@ && items[12].description@ == "Type an arbitrary FFmpeg audio filter string (-af)"@
    &&& items[12].filter matches Filter::Audio(AudioFilter::Custom { filter_string }) && filter_string@.len() == 0
}

/// The filter dialog state.
#[derive(Debug)]
pub struct FilterDialogState {
    pub current_tab: FilterTab,
    pub selected_index: usize,
    pub custom_text: String,
    pub editing_custom: bool,
    pub video_presets: Vec<FilterPresetItem>,
    pub audio_presets: Vec<FilterPresetItem>,
}

fn video_preset_list() -> (res: Vec<FilterPresetItem>)
    ensures
        is_video_preset_list(res@),
{
    let v = vec![
            FilterPresetItem {
                label: "Scale 1080p",
                description: "Resize video to 1920x1080 resolution",
                filter: Filter::Video(VideoFilter::Scale { width: ScaleDimension::Exact(1920), height: ScaleDimension::Exact(1080) }),
            },
            FilterPresetItem {
                label: "Scale 720p",
                description: "Resize video to 1280x720 resolution",
                filter: Filter::Video(VideoFilter::Scale { width: ScaleDimension::Exact(1280), height: ScaleDimension::Exact(720) }),
            },
            FilterPresetItem {
                label: "Scale 4K",
                description: "Resize video to 3840x2160 ultra HD",
                filter: Filter::Video(VideoFilter::Scale { width: ScaleDimension::Exact(3840), height: ScaleDimension::Exact(2160) }),
            },
            FilterPresetItem {
                label: "Scale Auto Height (1080p)",
                description: "Maintain aspect ratio with height 1080",
                filter: Filter::Video(VideoFilter::Scale { width: ScaleDimension::KeepAspect, height: ScaleDimension::Exact(1080) }),
            },
            FilterPresetItem {
                label: "FPS 30",
                description: "Convert video frame rate to 30 fps",
                filter: Filter::Video(VideoFilter::Fps { rate: Decimal { thousandths: 30000 } }),
            },
            FilterPresetItem {
                label: "FPS 60",
                description: "Convert video frame rate to 60 fps",
                filter: Filter::Video(VideoFilter::Fps { rate: Decimal { thousandths: 60000 } }),
            },
            FilterPresetItem {
                label: "Rotate 90° Clockwise",
                description: "Rotate video 90 degrees CW (transpose=1)",
                filter: Filter::Video(VideoFilter::Rotate { angle: RotationAngle::Clockwise90 }),
            },
            FilterPresetItem {
                label: "Rotate 90° Counter-Clockwise",
                description: "Rotate video 90 degrees CCW (transpose=2)",
                filter: Filter::Video(VideoFilter::Rotate { angle: RotationAngle::CounterClockwise90 }),
            },
            FilterPresetItem {
                label: "Rotate 180°",
                description: "Rotate video upside down (180 degrees)",
                filter: Filter::Video(VideoFilter::Rotate { angle: RotationAngle::Rotate180 }),
            },
            FilterPresetItem {
                label: "Flip Horizontal",
                description: "Mirror video horizontally (hflip)",
                filter: Filter::Video(VideoFilter::Rotate { angle: RotationAngle::FlipHorizontal }),
            },
            FilterPresetItem {
                label: "Flip Vertical",
                description: "Flip video vertically (vflip)",
                filter: Filter::Video(VideoFilter::Rotate { angle: RotationAngle::FlipVertical }),
            },
            FilterPresetItem {
                label: "Deinterlace",
                description: "Deinterlace interlaced video using yadif",
                filter: Filter::Video(VideoFilter::Deinterlace),
            },
            FilterPresetItem {
                label: "Denoise (Medium)",
                description: "Reduce video noise using hqdn3d filter",
                filter: Filter::Video(VideoFilter::Denoise { strength: DenoiseStrength::Medium }),
            },
            FilterPresetItem {
                label: "Sharpen",
                description: "Sharpen video details using unsharp filter",
                filter: Filter::Video(VideoFilter::Sharpen { amount: Decimal { thousandths: 1000 } }),
            },
            FilterPresetItem {
                label: "Custom Video Filter",
                description: "Type an arbitrary FFmpeg video filter string (-vf)",
                filter: Filter::Video(VideoFilter::Custom { filter_string: String::new() }),
            },
    ];
    v
}

fn audio_preset_list() -> (res: Vec<FilterPresetItem>)
    ensures
        is_audio_preset_list(res@),
{
    let v = vec![
            FilterPresetItem {
                label: "Normalize Volume (EBU R128)",
                description: "Normalize audio loudness using loudnorm",
                filter: Filter::Audio(AudioFilter::Normalize),
            },
            FilterPresetItem {
                label: "Volume +50%",
                description: "Increase volume level to 1.5",
                filter: Filter::Audio(AudioFilter::Volume { level: Decimal { thousandths: 1500 } }),
            },
            FilterPresetItem {
                label: "Volume -50%",
                description: "Decrease volume level to 0.5",
                filter: Filter::Audio(AudioFilter::Volume { level: Decimal { thousandths: 500 } }),
            },
            FilterPresetItem {
                label: "Fade In (2 sec)",
                description: "Apply audio fade in over 2 seconds",
                filter: Filter::Audio(AudioFilter::Fade { fade_type: FadeType::In, start: Decimal { thousandths: 0 }, duration: Decimal { thousandths: 2000 } }),
            },
            FilterPresetItem {
                label: "Fade Out (3 sec)",
                description: "Apply audio fade out over 3 seconds",
                filter: Filter::Audio(AudioFilter::Fade { fade_type: FadeType::Out, start: Decimal { thousandths: 0 }, duration: Decimal { thousandths: 3000 } }),
            },
            FilterPresetItem {
                label: "High Pass Filter (100Hz)",
                description: "Cut off low frequencies below 100Hz",
                filter: Filter::Audio(AudioFilter::HighPass { frequency: Decimal { thousandths: 100000 } }),
            },
            FilterPresetItem {
                label: "Low Pass Filter (12kHz)",
                description: "Cut off high frequencies above 12kHz",
                filter: Filter::Audio(AudioFilter::LowPass { frequency: Decimal { thousandths: 12000000 } }),
            },
            FilterPresetItem {
                label: "Resample 48kHz",
                description: "Resample audio sample rate to 48000Hz",
                filter: Filter::Audio(AudioFilter::Resample { rate: 48000 }),
            },
            FilterPresetItem {
                label: "Resample 44.1kHz",
                description: "Resample audio sample rate to 44100Hz",
                filter: Filter::Audio(AudioFilter::Resample { rate: 44100 }),
            },
            FilterPresetItem {
                label: "Channels: Stereo (2ch)",
                description: "Convert audio channel layout to stereo",
                filter: Filter::Audio(AudioFilter::Channels { count: 2 }),
            },
            FilterPresetItem {
                label: "Channels: Mono (1ch)",
                description: "Convert audio channel layout to mono",
                filter: Filter::Audio(AudioFilter::Channels { count: 1 }),
            },
            FilterPresetItem {
                label: "Tempo 1.25x",
                description: "Adjust audio tempo speed to 1.25x without pitch shift",
                filter: Filter::Audio(AudioFilter::Tempo { rate: Decimal { thousandths: 1250 } }),
            },
            FilterPresetItem {
                label: "Custom Audio Filter",
                description: "Type an arbitrary FFmpeg audio filter string (-af)",
                filter: Filter::Audio(AudioFilter::Custom { filter_string: String::new() }),
            },
    ];
    v
}

} // verus!

verus! {

impl FilterDialogState {
    /// The number of items the current tab lists: the presets of its kind, or
    /// the active filters.
    pub open spec fn item_count(self, active_count: usize) -> nat {
        match self.current_tab {
            FilterTab::Video => self.video_presets@.len(),
            FilterTab::Audio => self.audio_presets@.len(),
            FilterTab::Active => active_count as nat,
        }
    }

    /// Whether the dialog is as it opens: the video tab, the first item, no
    /// custom text, and the preset lists.
    pub open spec fn is_fresh(self) -> bool {
        &&& self.current_tab == FilterTab::Video
        &&& self.selected_index == 0
        &&& self.custom_text@.len() == 0
        &&& !self.editing_custom
        &&& is_video_preset_list(self.video_presets@)
        &&& is_audio_preset_list(self.audio_presets@)
    }

    /// The dialog as it opens: the video tab, the first item, no custom text.
    pub fn new() -> (res: Self)
        ensures
            res.current_tab == FilterTab::Video,
            res.selected_index == 0,
            res.custom_text@.len() == 0,
            !res.editing_custom,
            is_video_preset_list(res.video_presets@),
            is_audio_preset_list(res.audio_presets@),
    {
        FilterDialogState {
            current_tab: FilterTab::Video,
            selected_index: 0,
            custom_text: String::new(),
            editing_custom: false,
            video_presets: video_preset_list(),
            audio_presets: audio_preset_list(),
        }
    }

    /// Shows the next tab (wrapping around), selecting its first item and leaving
    /// custom editing.
    pub fn next_tab(&mut self)
        ensures
            final(self).current_tab == old(self).current_tab.spec_next(),
            final(self).selected_index == 0,
            !final(self).editing_custom,
            final(self).custom_text == old(self).custom_text,
            final(self).video_presets == old(self).video_presets,
            final(self).audio_presets == old(self).audio_presets,
    {
        self.current_tab = match self.current_tab {
            FilterTab::Video => FilterTab::Audio,
            FilterTab::Audio => FilterTab::Active,
            FilterTab::Active => FilterTab::Video,
        };
        self.selected_index = 0;
        self.editing_custom = false;
    }

    /// Shows the previous tab (wrapping around), selecting its first item and
    /// leaving custom editing.
    pub fn prev_tab(&mut self)
        ensures
            final(self).current_tab == old(self).current_tab.spec_prev(),
            final(self).selected_index == 0,
            !final(self).editing_custom,
            final(self).custom_text == old(self).custom_text,
            final(self).video_presets == old(self).video_presets,
            final(self).audio_presets == old(self).audio_presets,
    {
        self.current_tab = match self.current_tab {
            FilterTab::Video => FilterTab::Active,
            FilterTab::Audio => FilterTab::Video,
            FilterTab::Active => FilterTab::Audio,
        };
        self.selected_index = 0;
        self.editing_custom = false;
    }

    /// Returns the number of items the current tab lists: the presets of its
    /// kind, or `active_count` on the tab of active filters.
    pub fn tab_item_count(&self, active_count: usize) -> (res: usize)
        ensures
            res == self.item_count(active_count),
    {
        match self.current_tab {
            FilterTab::Video => self.video_presets.len(),
            FilterTab::Audio => self.audio_presets.len(),
            FilterTab::Active => active_count,
        }
    }

    /// Selects the next of the `count` items of the tab, wrapping to the
    /// first; nothing happens while custom text is edited or when `count` is 0.
    pub fn select_next(&mut self, count: usize)
        requires
            !old(self).editing_custom && count > 0 ==> old(self).selected_index < usize::MAX,
        ensures
            final(self).selected_index == if old(self).editing_custom {
                old(self).selected_index as int
            } else {
                next_index(old(self).selected_index as int, count as int)
            },
            final(self).current_tab == old(self).current_tab,
            final(self).editing_custom == old(self).editing_custom,
            final(self).custom_text == old(self).custom_text,
            final(self).video_presets == old(self).video_presets,
            final(self).audio_presets == old(self).audio_presets,
    {
        if self.editing_custom {
            return;
        }
        if count > 0 {
            self.selected_index = (self.selected_index + 1) % count;
        }
    }

    /// Selects the previous of the `count` items of the tab, wrapping to the
    /// last; nothing happens while custom text is edited or when `count` is 0.
    pub fn select_prev(&mut self, count: usize)
        requires
            !old(self).editing_custom ==> old(self).selected_index + count <= usize::MAX,
        ensures
            final(self).selected_index == if old(self).editing_custom {
                old(self).selected_index as int
            } else {
                prev_index(old(self).selected_index as int, count as int)
            },
            final(self).current_tab == old(self).current_tab,
            final(self).editing_custom == old(self).editing_custom,
            final(self).custom_text == old(self).custom_text,
            final(self).video_presets == old(self).video_presets,
            final(self).audio_presets == old(self).audio_presets,
    {
        if self.editing_custom {
            return;
        }
        if count > 0 {
            self.selected_index = (self.selected_index + count - 1) % count;
        }
    }

    /// Types a character into the custom filter text, while it is being edited.
    pub fn custom_append(&mut self, c: char)
        ensures
            final(self).custom_text@ == if old(self).editing_custom {
                old(self).custom_text@.push(c)
            } else {
                old(self).custom_text@
            },
            final(self).current_tab == old(self).current_tab,
            final(self).selected_index == old(self).selected_index,
            final(self).editing_custom == old(self).editing_custom,
            final(self).video_presets == old(self).video_presets,
            final(self).audio_presets == old(self).audio_presets,
    {
        if self.editing_custom {
            push_char(&mut self.custom_text, c);
        }
    }

    /// Erases the last character of the custom filter text, while it is being edited.
    pub fn custom_backspace(&mut self)
        ensures
            final(self).custom_text@ == if old(self).editing_custom && old(self).custom_text@.len() > 0 {
                old(self).custom_text@.drop_last()
            } else {
                old(self).custom_text@
            },
            final(self).current_tab == old(self).current_tab,
            final(self).selected_index == old(self).selected_index,
            final(self).editing_custom == old(self).editing_custom,
            final(self).video_presets == old(self).video_presets,
            final(self).audio_presets == old(self).audio_presets,
    {
        if self.editing_custom {
            let _ = pop_char(&mut self.custom_text);
        }
    }

    /// Returns the number of active filters of both kinds.
    pub fn active_count(&self, filters: &FilterChain) -> (res: usize)
        requires
            filters.video().len() + filters.audio().len() <= usize::MAX,
        ensures
            res == filters.video().len() + filters.audio().len(),
    {
        filters.video_filters().len() + filters.audio_filters().len()
    }
}

impl Default for FilterDialogState {
    fn default() -> (res: Self)
        ensures
            res.current_tab == FilterTab::Video,
            res.selected_index == 0,
            res.custom_text@.len() == 0,
            !res.editing_custom,
            is_video_preset_list(res.video_presets@),
            is_audio_preset_list(res.audio_presets@),
    {
        FilterDialogState::new()
    }
}

impl Clone for FilterDialogState {
    fn clone(&self) -> (res: Self)
        ensures
            res.current_tab == self.current_tab,
            res.selected_index == self.selected_index,
            res.custom_text == self.custom_text,
            res.editing_custom == self.editing_custom,
            res.video_presets@ == self.video_presets@,
            res.audio_presets@ == self.audio_presets@,
    {
        let v = self.video_presets.clone();
        let a = self.audio_presets.clone();
        assert(v@ =~= self.video_presets@);
        assert(a@ =~= self.audio_presets@);
        FilterDialogState {
            current_tab: self.current_tab,
            selected_index: self.selected_index,
            custom_text: self.custom_text.clone(),
            editing_custom: self.editing_custom,
            video_presets: v,
            audio_presets: a,
        }
    }
}

/// The index after `i` among `n` items, wrapping to the first; `i` itself
/// when there are none.
pub open spec fn next_index(i: int, n: int) -> int {
    if n == 0 { i } else { (i + 1) % n }
}

/// The index before `i` among `n` items, wrapping to the last; `i` itself
/// when there are none.
pub open spec fn prev_index(i: int, n: int) -> int {
    if n == 0 { i } else { (i + n - 1) % n }
}

/// Going to the next tab and back, or back and forward, returns to the same tab;
/// three steps in one direction go round to the start.
pub proof fn law_tab_cycle(t: FilterTab)
    ensures
        t.spec_next().spec_prev() == t,
        t.spec_prev().spec_next() == t,
        t.spec_next().spec_next().spec_next() == t,
{
}

/// Selecting the next item and then the previous one, or the previous and
/// then the next, returns to the same item, when the selection lies within
/// the list.
pub proof fn law_select_next_then_prev(i: int, n: int)
    requires
        0 <= i < n,
    ensures
        prev_index(next_index(i, n), n) == i,
        next_index(prev_index(i, n), n) == i,
{
    if i + 1 < n {
        assert((i + 1) % n == i + 1 && (i + 1 + n - 1) % n == i) by (nonlinear_arith)
            requires 0 <= i, i + 1 < n;
    } else {
        assert((i + 1) % n == 0 && (0 + n - 1) % n == n - 1) by (nonlinear_arith)
            requires i + 1 == n, n > 0;
    }
    if i == 0 {
        assert((0 + n - 1) % n == n - 1 && (n - 1 + 1) % n == 0) by (nonlinear_arith)
            requires n > 0;
    } else {
        assert((i + n - 1) % n == i - 1 && (i - 1 + 1) % n == i) by (nonlinear_arith)
            requires 0 < i < n;
    }
}

} // verus!
