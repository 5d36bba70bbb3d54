//! The whole screen of the full-screen chat.

use vstd::prelude::*;

use crate::model_mode::mode_text;
use crate::tui::app::{opt_modal, App, AppView, Modal, ModalView};
use crate::tui::dialogs::{
    api_key_drawn, help_drawn, model_picker_drawn, provider_picker_drawn, providers_disabled_drawn,
    render_api_key_modal, render_help_modal, render_model_picker_modal, render_provider_picker_modal,
    render_providers_disabled, render_web_mode_picker_modal, render_web_search_modal, web_mode_drawn,
    web_search_drawn,
};
use crate::tui::layout::{
    all_lie_in, can_be_met, centered, centered_rect, growing, is_split, split_area, wanted_by,
    Area, Axis, Part,
};
use crate::tui::paint::{blank_picture, with_stroke, Picture, PictureView, Widget, WidgetView};
use crate::tui::screen::{
    body_drawn, footer_view, header_view, input_drawn, suggestions_drawn,
};
use crate::tui::style::Tone;

verus! {

/// Where the parts of the screen stand.
#[derive(Debug)]
pub struct Places {
    /// The header, the body, the composer and the footer.
    pub root: Vec<Area>,
    /// The conversations and the chat.
    pub body: Vec<Area>,
    /// The open dialog.
    pub dialog: Area,
    /// The parts of the open dialog.
    pub parts: Vec<Area>,
}

/// The parts of the screen, from top to bottom.
pub open spec fn root_parts() -> Seq<Part> {
    seq![Part::Length(4), Part::Min(3), Part::Length(4), Part::Length(3)]
}

/// The parts of the body, from left to right.
pub open spec fn body_parts() -> Seq<Part> {
    seq![Part::Length(40), Part::Min(30)]
}

/// The parts of a dialog, from top to bottom.
pub open spec fn dialog_parts(modal: Option<ModalView>) -> Seq<Part> {
    match modal {
        Some(ModalView::ModelPicker(_)) => seq![Part::Length(5), Part::Min(6)],
        Some(ModalView::ProviderPicker(m)) => if m.supports_provider_selection {
            seq![Part::Length(4), Part::Min(5)]
        } else {
            Seq::empty()
        },
        Some(ModalView::WebModePicker(_)) => seq![Part::Length(4), Part::Min(8)],
        Some(ModalView::WebSearch(_)) => seq![Part::Length(5), Part::Length(4), Part::Min(8)],
        _ => Seq::empty(),
    }
}

/// Where a dialog stands on the screen.
pub open spec fn dialog_area(screen: Area, modal: Option<ModalView>) -> Area {
    match modal {
        None => screen,
        Some(ModalView::ApiKey(_)) => centered(screen, 70, 30),
        Some(ModalView::ModelPicker(_)) => centered(screen, 85, 80),
        Some(ModalView::ProviderPicker(_)) => centered(screen, 80, 70),
        Some(ModalView::WebModePicker(_)) => centered(screen, 86, 78),
        Some(ModalView::WebSearch(_)) => centered(screen, 90, 85),
        Some(ModalView::Help) => centered(screen, 75, 60),
    }
}

/// How many parts a dialog has.
pub open spec fn part_count(modal: Option<ModalView>) -> nat {
    dialog_parts(modal).len()
}

impl Places {
    /// There is a place for every part, and all of them lie on the screen.
    pub open spec fn suit(self, screen: Area, modal: Option<ModalView>) -> bool {
        &&& self.root@.len() == 4
        &&& self.body@.len() == 2
        &&& self.parts@.len() == part_count(modal)
        &&& all_lie_in(self.root@, screen)
        &&& all_lie_in(self.body@, self.root@[1])
        &&& self.dialog.lies_in(screen)
        &&& all_lie_in(self.parts@, self.dialog)
    }

    /// The screen is shared out: each part has the place that its size asks for.
    pub open spec fn share(self, screen: Area, modal: Option<ModalView>) -> bool {
        &&& is_split(self.root@, screen, Axis::Vertical, root_parts())
        &&& is_split(self.body@, self.root@[1], Axis::Horizontal, body_parts())
        &&& self.dialog == dialog_area(screen, modal)
        &&& is_split(self.parts@, self.dialog, Axis::Vertical, dialog_parts(modal))
        &&& self.suit(screen, modal)
    }
}

/// Whether a screen is one that rows can be counted on, five below its last one too.
pub open spec fn screen_suits(screen: Area) -> bool {
    screen.fits() && screen.y + screen.height + 5 <= u16::MAX
}

/// The picture with the open dialog.
pub open spec fn dialog_drawn(p: PictureView, s: AppView, dialog: Area, parts: Seq<Area>) -> PictureView {
    match s.modal {
        None => p,
        Some(ModalView::ApiKey(m)) => api_key_drawn(p, m, dialog),
        Some(ModalView::ModelPicker(m)) => model_picker_drawn(p, m, dialog, parts[0], parts[1]),
        Some(ModalView::ProviderPicker(m)) => if m.supports_provider_selection {
            provider_picker_drawn(p, m, dialog, parts[0], parts[1])
        } else {
            providers_disabled_drawn(p, m, dialog)
        },
        Some(ModalView::WebModePicker(selected)) => web_mode_drawn(
            p,
            mode_text(s.mode),
            selected,
            dialog,
            parts[0],
            parts[1],
        ),
        Some(ModalView::WebSearch(m)) => web_search_drawn(
            p,
            m,
            dialog,
            parts[0],
            parts[1],
            parts[2],
        ),
        Some(ModalView::Help) => help_drawn(p, dialog),
    }
}

/// The whole screen, with its parts in these places.
pub open spec fn screen_drawn(
    s: AppView,
    screen: Area,
    root: Seq<Area>,
    body: Seq<Area>,
    dialog: Area,
    parts: Seq<Area>,
) -> PictureView {
    let canvas = with_stroke(blank_picture(), WidgetView::Fill(Tone::Canvas), screen);
    let header = with_stroke(canvas, header_view(s), root[0]);
    let middle = body_drawn(header, s, body[0], body[1]);
    let input = input_drawn(middle, s, root[2]);
    let footer = with_stroke(input, footer_view(s), root[3]);
    dialog_drawn(suggestions_drawn(footer, s, root[2]), s, dialog, parts)
}

fn lay_out_dialog(screen: Area, modal: &Option<Modal>) -> (r: (Area, Vec<Area>))
    requires
        screen.fits(),
    ensures
        r.0 == dialog_area(screen, opt_modal(*modal)),
        r.0.lies_in(screen),
        is_split(r.1@, r.0, Axis::Vertical, dialog_parts(opt_modal(*modal))),
{
    match modal {
        None => (screen, Vec::new()),
        Some(Modal::ApiKey(_)) => (centered_rect(screen, 70, 30), Vec::new()),
        Some(Modal::ModelPicker(_)) => {
            let area: Area = centered_rect(screen, 85, 80);
            let parts: Vec<Area> = split_area(
                area,
                Axis::Vertical,
                &vec![Part::Length(5), Part::Min(6)],
            );
            (area, parts)
        },
        Some(Modal::ProviderPicker(m)) => {
            let area: Area = centered_rect(screen, 80, 70);
            if !m.supports_provider_selection {
                return (area, Vec::new());
            }
            let parts: Vec<Area> = split_area(
                area,
                Axis::Vertical,
                &vec![Part::Length(4), Part::Min(5)],
            );
            (area, parts)
        },
        Some(Modal::WebModePicker(_)) => {
            let area: Area = centered_rect(screen, 86, 78);
            let parts: Vec<Area> = split_area(
                area,
                Axis::Vertical,
                &vec![Part::Length(4), Part::Min(8)],
            );
            (area, parts)
        },
        Some(Modal::WebSearch(_)) => {
            let area: Area = centered_rect(screen, 90, 85);
            let parts: Vec<Area> = split_area(
                area,
                Axis::Vertical,
                &vec![Part::Length(5), Part::Length(4), Part::Min(8)],
            );
            (area, parts)
        },
        Some(Modal::Help) => (centered_rect(screen, 75, 60), Vec::new()),
    }
}

impl App {
    /// Finds a place on the screen for every part of it.
    pub fn lay_out(&self, screen: Area) -> (r: Places)
        requires
            screen.fits(),
        ensures
            r.share(screen, self@.modal),
    {
        let root: Vec<Area> = split_area(
            screen,
            Axis::Vertical,
            &vec![Part::Length(4), Part::Min(3), Part::Length(4), Part::Length(3)],
        );
        assert(root@[1].lies_in(screen));
        let body: Vec<Area> = split_area(
            root[1],
            Axis::Horizontal,
            &vec![Part::Length(40), Part::Min(30)],
        );
        let (dialog, parts): (Area, Vec<Area>) = lay_out_dialog(screen, &self.modal);
        Places { root, body, dialog, parts }
    }

    /// Draws the open dialog.
    pub fn draw_dialog(&self, picture: &mut Picture, dialog: Area, parts: &Vec<Area>)
        requires
            self.well_formed(),
            dialog.fits(),
            dialog.y + dialog.height + 5 <= u16::MAX,
            parts@.len() == part_count(self@.modal),
            all_lie_in(parts@, dialog),
        ensures
            final(picture)@ == dialog_drawn(old(picture)@, self@, dialog, parts@),
    {
        match &self.modal {
            None => {},
            Some(Modal::ApiKey(m)) => {
                render_api_key_modal(picture, m, dialog);
            },
            Some(Modal::ModelPicker(m)) => {
                assert(parts@[0].lies_in(dialog));
                render_model_picker_modal(picture, m, dialog, parts[0], parts[1]);
            },
            Some(Modal::ProviderPicker(m)) => {
                if m.supports_provider_selection {
                    render_provider_picker_modal(picture, m, dialog, parts[0], parts[1]);
                } else {
                    render_providers_disabled(picture, m, dialog);
                }
            },
            Some(Modal::WebModePicker(m)) => {
                render_web_mode_picker_modal(
                    picture,
                    &self.web_mode,
                    m.selected,
                    dialog,
                    parts[0],
                    parts[1],
                );
            },
            Some(Modal::WebSearch(m)) => {
                assert(parts@[1].lies_in(dialog));
                render_web_search_modal(picture, m, dialog, parts[0], parts[1], parts[2]);
            },
            Some(Modal::Help) => {
                render_help_modal(picture, dialog);
            },
        }
    }

    /// Draws the whole screen, with its parts in these places.
    pub fn draw(&self, screen: Area, places: &Places) -> (r: Picture)
        requires
            self.well_formed(),
            screen_suits(screen),
            places.suit(screen, self@.modal),
        ensures
            r@ == screen_drawn(
                self@,
                screen,
                places.root@,
                places.body@,
                places.dialog,
                places.parts@,
            ),
    {
        assert(places.root@[2].lies_in(screen));
        let mut picture: Picture = Picture::new();
        picture.draw(Widget::Fill(Tone::Canvas), screen);
        picture.draw(self.render_header(), places.root[0]);
        self.render_body(&mut picture, places.body[0], places.body[1]);
        self.render_input(&mut picture, places.root[2]);
        picture.draw(self.render_footer(), places.root[3]);
        self.render_slash_suggestions(&mut picture, places.root[2]);
        self.draw_dialog(&mut picture, places.dialog, &places.parts);
        picture
    }

    /// Draws the whole screen, shared out among its parts.
    pub fn render(&self, screen: Area) -> (r: Picture)
        requires
            self.well_formed(),
            screen_suits(screen),
        ensures
            exists|p: Places| #[trigger]
                p.share(screen, self@.modal) && r@ == screen_drawn(
                    self@,
                    screen,
                    p.root@,
                    p.body@,
                    p.dialog,
                    p.parts@,
                ),
    {
        let places: Places = self.lay_out(screen);
        self.draw(screen, &places)
    }
}

/// On a screen of 14 rows or more, the header has the first four, the footer the last three, the
/// composer the four above it, and the body what is left; on one of 70 columns or more, the
/// conversations have the first 40 and the chat has the others.
pub proof fn law_screen_is_shared_out(places: Places, screen: Area, modal: Option<ModalView>)
    requires
        screen.fits(),
        screen.height >= 14,
        places.share(screen, modal),
    ensures
        places.root@[0] == (Area { height: 4, ..screen }),
        places.root@[1] == (Area {
            y: (screen.y + 4) as u16,
            height: (screen.height - 11) as u16,
            ..screen
        }),
        places.root@[2] == (Area {
            y: (screen.y + screen.height - 7) as u16,
            height: 4,
            ..screen
        }),
        places.root@[3] == (Area {
            y: (screen.y + screen.height - 3) as u16,
            height: 3,
            ..screen
        }),
        screen.width >= 70 ==> places.body@[0] == (Area { width: 40, ..places.root@[1] }),
        screen.width >= 70 ==> places.body@[1] == (Area {
            x: (screen.x + 40) as u16,
            width: (screen.width - 40) as u16,
            ..places.root@[1]
        }),
{
    reveal_with_fuel(wanted_by, 5);
    reveal_with_fuel(growing, 5);
    assert(can_be_met(root_parts(), screen.height as nat));
    assert(screen.width >= 70 ==> can_be_met(body_parts(), screen.width as nat));
}

} // verus!
