//! Events that the interpreter hands to its host, and the host's answer.
use crate::strmap::StrMap;
use vstd::prelude::*;

verus! {

/// What the interpreter asks the host to do or show.
#[derive(Debug, Clone)]
pub enum Event {
    /// UI transition.
    UiTransition(TransitionEvent),
    /// Layer operation.
    Layer(LayerEvent),
    /// Loading indicator on or off.
    LoadingState { active: bool },
    /// Saving indicator on or off.
    SavingState { active: bool },
    /// Play a sound effect.
    PlaySound { name: String, wait: bool },
    /// Stop all sounds, fading out over `duration` ms.
    StopAllSounds { duration: u64 },
    /// Show a dialog.
    ShowDialog {
        title: String,
        message: String,
        varname: Option<String>,
        textfield: Option<String>,
        textfield_size: Option<usize>,
    },
    /// Yes/no choice.
    YesNo { file: String, se: Option<String> },
    /// Script call.
    ScriptCall { file: String, label: String },
    /// Exit request.
    Exit,
    /// Return to title.
    GoTitle,
    /// Generic wait.
    Wait { reason: WaitReason },
    /// Story text.
    Text { content: String },
    /// Loading mask.
    LoadMask { action: LoadMaskAction, time: u64 },
    /// Delete everything, over `time` ms.
    AllDelete { time: u64 },
    /// System UI shown or hidden.
    SystemUi { action: SystemUiAction },
    /// System save or load.
    SaveOperation { action: SaveAction },
    /// Repeat marker.
    Repeatedly,
    /// Auto-skip disabled.
    AutoSkipDisable,
    /// Story text (`inline` when it continues the current line).
    ScenarioText { content: String, inline: bool },
    /// `[rt]` line break.
    LineBreak,
    /// `[rp]` page break.
    PageBreak { backlog: Option<i32> },
    /// `[font]` settings.
    FontSettings(StrMap<String>),
    /// `[font_close]`.
    FontClose,
    /// `[fontdefault]` settings.
    FontDefault(StrMap<String>),
    /// `[fontinit]`.
    FontInit,
    /// `[ruby]` start.
    RubyStart { text: String },
    /// `[/ruby]`.
    RubyEnd,
    /// `[link]` start.
    LinkStart { file: Option<String>, label: Option<String>, link_type: i32, color: Option<String> },
    /// `[/link]`.
    LinkEnd,
    /// Links disabled.
    LinkDisable,
    /// Links enabled.
    LinkEnable,
    /// `[glyph]` settings.
    GlyphConfig(StrMap<String>),
    /// `[chgmsg]` switch message layer.
    MessageLayerSwitch { id: Option<String>, layered: i32 },
    /// `[chgmsg_close]`.
    MessageLayerPop,
    /// `[scetween]` text animation.
    TextAnimation(StrMap<String>),
    /// `[scein]`.
    SceneIn,
    /// `[sceout]`.
    SceneOut,
    /// `[automode]`.
    AutoModeConfig { allow: bool, layer: Option<String> },
    /// `[skip]`.
    SkipConfig { allow: bool, skip_unread: bool },
    /// `[backlog]`.
    BacklogConfig { allow: bool },
    /// `[hide]`.
    HideConfig { allow: bool },
    /// `[alreadyread]`.
    AlreadyReadConfig { mode: i32 },
    /// `[writebacklog]`.
    WriteBacklogConfig { enable: bool },
    /// `[indent]`.
    IndentConfig { value: String },
    /// `[prohibit]`.
    ProhibitConfig { value: String },
    /// `[wordparts]`.
    WordpartsConfig { value: String },
    /// `[splay]` play BGM.
    BgmPlay {
        file: String,
        loop_play: bool,
        gain: Option<i32>,
        pan: Option<i32>,
        fade_time: Option<u64>,
    },
    /// `[sstop]` stop BGM.
    BgmStop { fade_time: Option<u64> },
    /// `[sfade]` BGM volume fade.
    BgmFade { gain: i32, time: u64 },
    /// `[span]` BGM pan.
    BgmPan { pan: i32 },
    /// `[sxfade]` BGM cross-fade.
    BgmCrossFade { file: String, loop_play: bool, gain: Option<i32>, pan: Option<i32>, time: u64 },
    /// `[seplay]` play SE.
    SePlay {
        id: String,
        file: String,
        loop_play: bool,
        gain: Option<i32>,
        pan: Option<i32>,
        fade_time: Option<u64>,
        skippable: bool,
    },
    /// `[sestop]` stop SE.
    SeStop { id: String, fade_time: Option<u64> },
    /// `[sefade]` SE volume fade.
    SeFade { id: String, gain: i32, time: u64 },
    /// `[sepan]` SE pan.
    SePan { id: String, pan: i32 },
    /// `[voice]` play voice.
    VoicePlay { file: String, gain: Option<i32>, pan: Option<i32>, fade_time: Option<u64> },
    /// `[setonsoundfinish]`.
    SoundFinishHandler {
        id: String,
        file: Option<String>,
        label: Option<String>,
        call: bool,
        handler: Option<String>,
    },
    /// `[delonsoundfinish]`.
    SoundFinishHandlerDel { id: String },
    /// `[exec]` user operation.
    Exec { command: String, mode: Option<i32> },
    /// `[save]`.
    SaveGame { file: String },
    /// `[load]`.
    LoadGame { file: String, trans_type: Option<i32> },
    /// `[debug]`.
    DebugConfig { mode: Option<i32>, level: Option<i32> },
    /// `[debugprint]`.
    DebugPrint { level: i32, data: String },
    /// `[debugreload]`.
    DebugReload,
    /// `[caption]` window title.
    Caption { data: String },
    /// `[mouse]`.
    MouseConfig { left: Option<i32>, top: Option<i32>, hide: Option<i32>, autohide: Option<u64> },
    /// `[keyconfig]`.
    KeyConfig(StrMap<String>),
    /// `[file]` file operation.
    FileOperation {
        command: String,
        src: Option<String>,
        dst: Option<String>,
        target: Option<String>,
    },
    /// `[httpget]`.
    HttpGet { url: String },
    /// `[httppost]`.
    HttpPost { url: String, params: StrMap<String> },
    /// `[openbrowser]`.
    OpenBrowser { url: String },
    /// `[autosave]`.
    AutoSaveConfig { allow: bool },
    /// `[avoid]`.
    AvoidConfig { allow: bool },
    /// `[vibrate]`.
    Vibrate { time: u64 },
    /// `[statusbar]`.
    StatusBar { visible: bool },
    /// `[purchase]`.
    Purchase { item: String },
    /// `[callnative]`.
    CallNative { function: String, params: StrMap<String> },
    /// `[seton*]` event handler; `extra_params` are the other parameters,
    /// handed to the handler when the event fires.
    SetEventHandler {
        event_name: String,
        file: Option<String>,
        label: Option<String>,
        call: bool,
        handler: Option<String>,
        extra_params: StrMap<String>,
    },
    /// `[delon*]`; with `key` only that key's handler is removed.
    DelEventHandler { event_name: String, key: Option<String> },
    /// `[lytween]`.
    LayerTween {
        id: String,
        param: String,
        from: Option<String>,
        to: Option<String>,
        ease: Option<String>,
        time: Option<u64>,
        delay: Option<u64>,
        loop_count: Option<i32>,
        yoyo: Option<i32>,
        loop_delay: Option<u64>,
        sync: bool,
        delete: bool,
        handler_file: Option<String>,
        handler_label: Option<String>,
        handler_handler: Option<String>,
    },
    /// `[lytweendel]`.
    LayerTweenDelete { id: String },
    /// `[tweenset]`.
    TweenSetStart,
    /// `[/tweenset]`.
    TweenSetEnd,
    /// `[lyevent]`; `extra_params` are the other parameters, forwarded as
    /// they are.
    LayerEventHandler {
        id: String,
        event_type: String,
        mode: String,
        file: Option<String>,
        label: Option<String>,
        call: bool,
        handler: Option<String>,
        penetration: bool,
        extra_params: StrMap<String>,
    },
    /// `[lyrename]`.
    LayerRename { id: String, to: String },
    /// `[lyedit]`.
    LayerEdit {
        id: String,
        mode: String,
        color: Option<String>,
        file: Option<String>,
        left: Option<i32>,
        top: Option<i32>,
    },
    /// `[lydrag]`.
    LayerDrag { id: String },
    /// `[anime]`.
    Anime {
        id: String,
        mode: String,
        file: Option<String>,
        mask: Option<String>,
        time: Option<u64>,
        loop_count: Option<i32>,
        props: StrMap<String>,
    },
    /// `[video]`.
    VideoPlay { id: Option<String>, file: String, skip: bool, loop_play: bool },
    /// `[setonvideofinish]`.
    VideoFinishHandler {
        file: Option<String>,
        label: Option<String>,
        call: bool,
        handler: Option<String>,
    },
    /// `[delonvideofinish]`.
    VideoFinishHandlerDel,
    /// `[trans]`.
    Trans {
        trans_type: i32,
        time: Option<u64>,
        rule: Option<String>,
        vague: Option<i32>,
        input: i32,
    },
    /// `[flip]`.
    Flip,
    /// `[lyshader]`.
    ShaderLoad { id: String, file: String },
    /// `[takess]`.
    TakeScreenshot,
    /// `[savess]`.
    SaveScreenshot { file: String, width: Option<u32>, height: Option<u32> },
    /// `[rclick]`.
    RightClickConfig { allow: bool, file: Option<String> },
    /// `[macrodel]`.
    MacroDel { file: String },
    /// A tag that nothing handles, with its parameters.
    Custom { tag: String, params: StrMap<String> },
}

/// A UI transition.
#[derive(Debug, Clone)]
pub struct TransitionEvent {
    /// Duration in ms.
    pub time: u64,
    /// Transition kind.
    pub fade: Option<String>,
}

/// A layer operation.
#[derive(Debug, Clone)]
pub enum LayerEvent {
    /// Create a layer.
    Create { id: String, file: String },
    /// Create a layer (variant with alpha).
    Create2 { id: String, file: String, alpha: Option<u8> },
    /// Delete a layer.
    Delete { id: String },
    /// Set one property.
    SetProperty { id: String, property: String, value: String },
    /// Set several properties.
    SetProperties { id: String, properties: StrMap<String> },
}

/// Why the script waits.
#[derive(Debug, Clone)]
pub enum WaitReason {
    /// `[wt]`.
    Generic,
    /// `[wt0]`.
    Generic0,
    /// `[stop]`.
    Stop { reason: Option<String> },
    /// `[exkey]`.
    KeyWait { buttons: Vec<String> },
    /// `[wait]`: milliseconds, and how input is treated (0 ignore, 1 ends
    /// the wait, 2 keeps skipping).
    Timed { milliseconds: u64, input: i32 },
}

/// Loading mask operation.
#[derive(Debug, Clone, Copy, PartialEq, Eq, Structural)]
pub enum LoadMaskAction {
    Show,
    Delete,
}

/// System UI operation.
#[derive(Debug, Clone)]
pub enum SystemUiAction {
    Show,
    Hide { skip: Option<String> },
}

/// Save operation.
#[derive(Debug, Clone, Copy, PartialEq, Eq, Structural)]
pub enum SaveAction {
    SystemSave,
    SystemLoad,
}

/// The host's answer to an event.
#[derive(Debug, Clone, Copy, PartialEq, Eq, Structural)]
pub enum CallbackResult {
    /// Go on.
    Continue,
    /// Stop here and wait for the host.
    Pause,
    /// Abort execution.
    Abort,
}

/// The answer that lets execution go on for every event.
pub fn default_callback(_event: Event) -> (r: CallbackResult)
    ensures
        r == CallbackResult::Continue,
{
    CallbackResult::Continue
}

} // verus!
