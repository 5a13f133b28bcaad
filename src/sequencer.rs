use vstd::prelude::*;
use vstd::string::*;
use egui_extras::RetainedImage;
use crate::frame::Frame;
use crate::models::{decode_image, decodes_as_image, CarRow};
use crate::text::{id_segment, lemma_no_arrow, parse_plate_line, plate_line, trimmed, uuid_of};

verus! {

/// Where the decoder stands within the three frames of one event.
pub enum Sequencer {
    /// Waiting for the binary frame with the vehicle image.
    AwaitVehicle,
    /// Holding the vehicle image; waiting for the binary frame with the plate image.
    AwaitPlateImage(RetainedImage),
    /// Holding both images; waiting for the text frame `"<plate> => <identifier>"`.
    AwaitPlateText(RetainedImage, RetainedImage),
}

/// The position of a `Sequencer`, without the images it holds.
pub ghost enum Stage {
    Vehicle,
    PlateImage,
    PlateText,
}

/// What feeding one frame led to, without the data it carries.
pub ghost enum Step {
    Pending,
    Decoded,
    Skipped,
    Fatal,
}

/// What feeding one frame to a `Sequencer` led to.
pub enum Outcome {
    /// The frame was taken; the event needs more frames.
    Pending,
    /// The frame completed an event.
    Decoded(CarRow),
    /// The frames since the last event make no event; decoding starts over.
    /// Not an error: the connection stays up.
    Skipped,
    /// The stream cannot be trusted any more (a receive error or an image
    /// that does not decode); the connection is to be dropped.
    Fatal(String),
}

impl Sequencer {
    pub open spec fn stage(&self) -> Stage {
        match self {
            Sequencer::AwaitVehicle => Stage::Vehicle,
            Sequencer::AwaitPlateImage(_) => Stage::PlateImage,
            Sequencer::AwaitPlateText(_, _) => Stage::PlateText,
        }
    }
}

impl Outcome {
    pub open spec fn step(&self) -> Step {
        match self {
            Outcome::Pending => Step::Pending,
            Outcome::Decoded(_) => Step::Decoded,
            Outcome::Skipped => Step::Skipped,
            Outcome::Fatal(_) => Step::Fatal,
        }
    }
}

/// The next stage and the kind of outcome when `input` is fed at `stage`.
/// Strict on the image frames (a receive error or an image that does not
/// decode is fatal), lenient elsewhere (a frame of the wrong kind, or a plate
/// line without a valid identifier, only starts decoding over).
pub open spec fn feed_step(stage: Stage, input: Result<Frame, String>) -> (Stage, Step) {
    match input {
        Err(_) => (Stage::Vehicle, Step::Fatal),
        Ok(frame) => match (stage, frame) {
            (Stage::Vehicle, Frame::Binary(b)) => if decodes_as_image(b@) {
                (Stage::PlateImage, Step::Pending)
            } else {
                (Stage::Vehicle, Step::Fatal)
            },
            (Stage::PlateImage, Frame::Binary(b)) => if decodes_as_image(b@) {
                (Stage::PlateText, Step::Pending)
            } else {
                (Stage::Vehicle, Step::Fatal)
            },
            (Stage::PlateText, Frame::Text(p)) => if plate_line(p@) is Some {
                (Stage::Vehicle, Step::Decoded)
            } else {
                (Stage::Vehicle, Step::Skipped)
            },
            _ => (Stage::Vehicle, Step::Skipped),
        },
    }
}

/// Why feeding `input` at `stage` is fatal: the receive error's text, or
/// which image did not decode.
pub open spec fn fatal_reason(stage: Stage, input: Result<Frame, String>) -> Seq<char> {
    match input {
        Err(e) => e@,
        Ok(_) => if stage is Vehicle {
            "Unable to parse car image from binary representation."@
        } else {
            "Unable to parse license plate image from binary representation."@
        },
    }
}

/// The payload of a received text frame; empty for anything else.
pub open spec fn text_of(input: Result<Frame, String>) -> Seq<char> {
    match input {
        Ok(Frame::Text(p)) => p@,
        _ => Seq::empty(),
    }
}

impl Sequencer {
    /// A decoder waiting for the first frame of an event.
    pub fn new() -> (r: Self)
        ensures
            r.stage() is Vehicle,
    {
        Sequencer::AwaitVehicle
    }

    /// Takes the next received frame (or the error that came instead) and
    /// moves on as `feed_step` says. A decoded event holds the two images
    /// held so far and the plate text and identifier of the plate line.
    pub fn feed(&mut self, input: Result<Frame, String>) -> (r: Outcome)
        ensures
            (final(self).stage(), r.step()) == feed_step(old(self).stage(), input),
            r is Fatal ==> r->Fatal_0@ == fatal_reason(old(self).stage(), input),
            r is Decoded ==> ({
                let row = r->Decoded_0;
                let line = plate_line(text_of(input))->Some_0;
                &&& row.license_plate_as_string@ == line.0
                &&& row.uuid == line.1
                &&& row.car_image == old(self)->AwaitPlateText_0
                &&& row.license_plate_image == old(self)->AwaitPlateText_1
            }),
    {
        let mut current = Sequencer::AwaitVehicle;
        core::mem::swap(self, &mut current);
        let frame = match input {
            Err(e) => {
                return Outcome::Fatal(e);
            },
            Ok(frame) => frame,
        };
        match (current, frame) {
            (Sequencer::AwaitVehicle, Frame::Binary(b)) => match decode_image("car_image", &b) {
                Some(car) => {
                    *self = Sequencer::AwaitPlateImage(car);
                    Outcome::Pending
                },
                None => Outcome::Fatal(
                    String::from_str("Unable to parse car image from binary representation."),
                ),
            },
            (Sequencer::AwaitPlateImage(car), Frame::Binary(b)) => match decode_image(
                "lp_image",
                &b,
            ) {
                Some(plate) => {
                    *self = Sequencer::AwaitPlateText(car, plate);
                    Outcome::Pending
                },
                None => Outcome::Fatal(
                    String::from_str(
                        "Unable to parse license plate image from binary representation.",
                    ),
                ),
            },
            (Sequencer::AwaitPlateText(car, plate), Frame::Text(p)) => match parse_plate_line(
                p.as_str(),
            ) {
                Some((text, id)) => Outcome::Decoded(CarRow::new(id, car, plate, text)),
                None => Outcome::Skipped,
            },
            _ => Outcome::Skipped,
        }
    }
}

/// A frame that is not binary, where an event should begin, yields no event
/// and no error: decoding simply waits for the next frame.
pub proof fn lemma_stray_leading_frame_is_skipped(frame: Frame)
    requires
        !(frame is Binary),
    ensures
        feed_step(Stage::Vehicle, Ok(frame)) == (Stage::Vehicle, Step::Skipped),
{
}

/// An image frame whose bytes do not decode is fatal, whichever of the two
/// image positions it stands at.
pub proof fn lemma_corrupt_image_is_fatal(stage: Stage, b: Vec<u8>)
    requires
        stage is Vehicle || stage is PlateImage,
        !decodes_as_image(b@),
    ensures
        feed_step(stage, Ok(Frame::Binary(b))) == (Stage::Vehicle, Step::Fatal),
{
}

/// A plate line without the `=>` separator yields no event and no error.
pub proof fn lemma_line_without_separator_is_skipped(p: String)
    requires
        forall|i: int| 0 <= i < p@.len() - 1 ==> !(#[trigger] p@[i] == '=' && p@[i + 1] == '>'),
    ensures
        feed_step(Stage::PlateText, Ok(Frame::Text(p))) == (Stage::Vehicle, Step::Skipped),
{
    lemma_no_arrow(p@, 0);
}

/// A text frame whose identifier segment does not parse as a UUID never
/// yields an event, whatever its plate text and wherever it arrives.
pub proof fn lemma_invalid_identifier_never_decodes(stage: Stage, p: String)
    requires
        id_segment(p@) is Some ==> uuid_of(trimmed(id_segment(p@)->Some_0)) is None,
    ensures
        feed_step(stage, Ok(Frame::Text(p))).1 != Step::Decoded,
{
}

/// Two image frames that decode, then a plate line with a valid identifier,
/// make exactly one event, and decoding is ready for the next one.
pub proof fn lemma_triple_decodes(a: Vec<u8>, b: Vec<u8>, p: String)
    requires
        decodes_as_image(a@),
        decodes_as_image(b@),
        plate_line(p@) is Some,
    ensures
        feed_step(Stage::Vehicle, Ok(Frame::Binary(a))) == (Stage::PlateImage, Step::Pending),
        feed_step(Stage::PlateImage, Ok(Frame::Binary(b))) == (Stage::PlateText, Step::Pending),
        feed_step(Stage::PlateText, Ok(Frame::Text(p))) == (Stage::Vehicle, Step::Decoded),
{
}

} // verus!
