//! The state of the interface, and how it answers what happens.
//!
//! The interface itself is drawn elsewhere. Here stands what it is drawn
//! from: which view is open, which pose the avatar shows, what the settings
//! are. Each message moves the state by one step, and the step says whether
//! the settings have to be stored afterwards.
//!
//! The poses are images of a type `H` that the interface brings along. The
//! image at index 0 is the idle pose, the one at index 1 the talking pose.

use vstd::prelude::*;
use vstd::view::View as _;

use crate::capture::InputDevice;
use crate::config::ChibiConfig;

verus! {

/// The index of the idle pose among the images.
pub const IDLE_IMAGE: usize = 0;

/// The index of the talking pose among the images.
pub const TALKING_IMAGE: usize = 1;

/// The views of the interface.
#[derive(Clone, Copy, Debug, PartialEq, Eq, Structural)]
pub enum View {
    /// The avatar.
    Home,
    /// The tunables and the choice of the input device.
    Settings,
    /// About the application.
    About,
}

/// A key of the keyboard, as far as the interface tells keys apart.
#[derive(Clone, Debug)]
pub enum Key {
    /// The escape key.
    Escape,
    /// A key that gives the text held here.
    Character(String),
    /// Any other key.
    Other,
}

/// Something that happened in the window.
#[derive(Clone, Debug)]
pub enum Event {
    /// A key went down.
    KeyPressed(Key),
    /// Anything else.
    Other,
}

/// What the interface is told.
#[derive(Clone, Debug)]
pub enum Message {
    /// The detector reports the microphone as active or not.
    MicActive(bool),
    /// The threshold was set, in hundredths.
    ThresholdChanged(u8),
    /// The deadband factor was set, in hundredths.
    DeadbandChanged(u8),
    /// An input device was picked.
    InputChanged(InputDevice),
    /// Flicker mode was switched.
    FlickerChanged(bool),
    /// Another view was asked for.
    SwitchView(View),
    /// Something happened in the window.
    AppEvent(Event),
}

/// What is left to do after a message was taken in.
#[derive(Clone, Copy, Debug, PartialEq, Eq, Structural)]
pub enum Effect {
    /// Nothing.
    Nothing,
    /// The configuration changed and has to be stored.
    SaveConfig,
}

/// Why a message could not be taken in.
#[derive(Clone, Copy, Debug, PartialEq, Eq, Structural)]
pub enum AppError {
    /// There is no image at this index.
    MissingImage(usize),
}

/// Internal application state.
pub struct ChibiApp<H> {
    /// Application configuration.
    pub config: ChibiConfig,
    /// The poses: the idle one first, then the talking one.
    pub images: Vec<H>,
    /// The input devices to choose from.
    pub available_input_devices: Vec<InputDevice>,
    /// The input device in use.
    pub selected_input_device: Option<InputDevice>,
    /// What the detector last reported.
    pub mic_activated: bool,
    /// Whether the buttons and the status line are shown.
    pub show_buttons: bool,
    /// Whether the notice about a restart is due.
    pub show_modal: bool,
    /// Whether the avatar stands before a plain background, to be keyed out.
    pub chroma_key: bool,
    /// The open view.
    pub curr_view: View,
    /// The pose on display, once the detector has reported.
    pub curr_image: Option<H>,
}

/// The image that stands for a report of the detector.
pub open spec fn image_for(active: bool) -> usize {
    if active {
        TALKING_IMAGE
    } else {
        IDLE_IMAGE
    }
}

/// The key switches the plain background on and off.
pub open spec fn is_chroma_key(key: Key) -> bool {
    key matches Key::Character(text) && text@ == "c"@
}

impl<H: Clone> ChibiApp<H> {
    /// The state at start: the home view with its buttons, no image loaded
    /// and none on display, the microphone not yet reported active.
    pub fn new(
        config: ChibiConfig,
        available_input_devices: Vec<InputDevice>,
        selected_input_device: Option<InputDevice>,
    ) -> (app: Self)
        ensures
            app.config == config,
            app.images@.len() == 0,
            app.available_input_devices == available_input_devices,
            app.selected_input_device == selected_input_device,
            !app.mic_activated,
            app.show_buttons,
            !app.show_modal,
            !app.chroma_key,
            app.curr_view == View::Home,
            app.curr_image is None,
    {
        ChibiApp {
            config,
            images: Vec::new(),
            available_input_devices,
            selected_input_device,
            mic_activated: false,
            show_buttons: true,
            show_modal: false,
            chroma_key: false,
            curr_view: View::Home,
            curr_image: None,
        }
    }

    /// Replaces the images. The pose on display stays as it is.
    pub fn set_images(&mut self, images: Vec<H>)
        ensures
            *final(self) == (ChibiApp { images, ..*old(self) }),
    {
        self.images = images;
    }

    /// The image at the index, if there is one.
    pub fn get_image(&self, index: usize) -> (image: Option<&H>)
        ensures
            index < self.images@.len() ==> image == Some(&self.images@[index as int]),
            index >= self.images@.len() ==> image is None,
    {
        if index < self.images.len() {
            Some(&self.images[index])
        } else {
            None
        }
    }

    /// The image to draw in the home view: the pose on display, or the idle
    /// pose as long as the detector has not reported. Without an idle pose
    /// among the images nothing can be drawn, whatever is on display.
    pub fn avatar_image(&self) -> (image: Result<&H, AppError>)
        ensures
            self.images@.len() == 0 ==> image == Err::<&H, AppError>(
                AppError::MissingImage(IDLE_IMAGE),
            ),
            self.images@.len() > 0 ==> image == Ok::<&H, AppError>(
                match self.curr_image {
                    Some(shown) => &shown,
                    None => &self.images@[IDLE_IMAGE as int],
                },
            ),
    {
        if self.images.len() == 0 {
            return Err(AppError::MissingImage(IDLE_IMAGE));
        }
        match &self.curr_image {
            Some(shown) => Ok(shown),
            None => Ok(&self.images[IDLE_IMAGE]),
        }
    }

    /// Takes in one message.
    ///
    /// A report of the detector puts the matching pose on display; if that
    /// image is missing, the message is refused and nothing changes. A change
    /// of a tunable is written to the configuration, which then has to be
    /// stored. The escape key shows and hides the buttons, the key `c`
    /// switches the plain background; other keys and events change nothing.
    pub fn update(&mut self, message: Message) -> (result: Result<Effect, AppError>)
        ensures
            match message {
                Message::MicActive(active) => if image_for(active) < old(self).images@.len() {
                    &&& result == Ok::<Effect, AppError>(Effect::Nothing)
                    &&& final(self).curr_image matches Some(shown) && cloned::<H>(
                        old(self).images@[image_for(active) as int],
                        shown,
                    )
                    &&& *final(self) == (ChibiApp {
                        mic_activated: active,
                        curr_image: final(self).curr_image,
                        ..*old(self)
                    })
                } else {
                    &&& result == Err::<Effect, AppError>(
                        AppError::MissingImage(image_for(active)),
                    )
                    &&& *final(self) == *old(self)
                },
                Message::ThresholdChanged(threshold) => {
                    &&& result == Ok::<Effect, AppError>(Effect::SaveConfig)
                    &&& *final(self) == (ChibiApp {
                        config: ChibiConfig { microphone_threshold: threshold, ..old(self).config },
                        ..*old(self)
                    })
                },
                Message::DeadbandChanged(deadband) => {
                    &&& result == Ok::<Effect, AppError>(Effect::SaveConfig)
                    &&& *final(self) == (ChibiApp {
                        config: ChibiConfig { deadband_factor: deadband, ..old(self).config },
                        ..*old(self)
                    })
                },
                Message::FlickerChanged(flicker) => {
                    &&& result == Ok::<Effect, AppError>(Effect::SaveConfig)
                    &&& *final(self) == (ChibiApp {
                        config: ChibiConfig { flicker_input: flicker, ..old(self).config },
                        ..*old(self)
                    })
                },
                Message::SwitchView(view) => {
                    &&& result == Ok::<Effect, AppError>(Effect::Nothing)
                    &&& *final(self) == (ChibiApp { curr_view: view, ..*old(self) })
                },
                Message::InputChanged(device) => {
                    &&& result == Ok::<Effect, AppError>(Effect::Nothing)
                    &&& *final(self) == (ChibiApp {
                        selected_input_device: Some(device),
                        show_modal: true,
                        ..*old(self)
                    })
                },
                Message::AppEvent(Event::KeyPressed(key)) => {
                    &&& result == Ok::<Effect, AppError>(Effect::Nothing)
                    &&& *final(self) == if key is Escape {
                        ChibiApp { show_buttons: !old(self).show_buttons, ..*old(self) }
                    } else if is_chroma_key(key) {
                        ChibiApp { chroma_key: !old(self).chroma_key, ..*old(self) }
                    } else {
                        *old(self)
                    }
                },
                Message::AppEvent(Event::Other) => {
                    &&& result == Ok::<Effect, AppError>(Effect::Nothing)
                    &&& *final(self) == *old(self)
                },
            },
    {
        match message {
            Message::MicActive(active) => {
                let index: usize = if active {
                    TALKING_IMAGE
                } else {
                    IDLE_IMAGE
                };
                if index >= self.images.len() {
                    return Err(AppError::MissingImage(index));
                }
                self.curr_image = Some(self.images[index].clone());
                self.mic_activated = active;
                Ok(Effect::Nothing)
            },
            Message::ThresholdChanged(threshold) => {
                self.config.microphone_threshold = threshold;
                Ok(Effect::SaveConfig)
            },
            Message::DeadbandChanged(deadband) => {
                self.config.deadband_factor = deadband;
                Ok(Effect::SaveConfig)
            },
            Message::FlickerChanged(flicker) => {
                self.config.flicker_input = flicker;
                Ok(Effect::SaveConfig)
            },
            Message::SwitchView(view) => {
                self.curr_view = view;
                Ok(Effect::Nothing)
            },
            Message::InputChanged(device) => {
                self.selected_input_device = Some(device);
                self.show_modal = true;
                Ok(Effect::Nothing)
            },
            Message::AppEvent(event) => {
                match event {
                    Event::KeyPressed(key) => {
                        match key {
                            Key::Escape => {
                                self.show_buttons = !self.show_buttons;
                            },
                            Key::Character(text) => {
                                let chroma: String = "c".to_owned();
                                if text == chroma {
                                    self.chroma_key = !self.chroma_key;
                                }
                            },
                            Key::Other => {},
                        }
                    },
                    Event::Other => {},
                }
                Ok(Effect::Nothing)
            },
        }
    }
}

} // verus!
