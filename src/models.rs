use vstd::prelude::*;
use egui_extras::RetainedImage;

verus! {

#[verifier::external_type_specification]
#[verifier::external_body]
pub struct ExRetainedImage(RetainedImage);

/// Whether `egui_extras::RetainedImage::from_image_bytes` accepts `b` as an
/// encoded image.
pub uninterp spec fn decodes_as_image(b: Seq<u8>) -> bool;

/// Relies on egui_extras::RetainedImage::from_image_bytes: it decodes the
/// bytes, and whether it succeeds depends on the bytes alone (the name only
/// labels the image).
#[verifier::external_body]
pub(crate) fn decode_image(debug_name: &str, bytes: &Vec<u8>) -> (r: Option<RetainedImage>)
    ensures
        r is Some <==> decodes_as_image(bytes@),
{
    match RetainedImage::from_image_bytes(debug_name, bytes) {
        Ok(image) => Some(image),
        Err(_) => None,
    }
}

/// Relies on chrono::Local::now, shown as `day.month.year hour:minute:second`.
/// The value depends on the clock, so nothing is promised of it.
#[verifier::external_body]
fn local_time_now() -> (r: String) {
    chrono::Local::now().naive_local().format("%d.%m.%Y %H:%M:%S").to_string()
}

/// One decoded vehicle detection. Built only once all three frames of an
/// event have decoded; never changed afterwards.
pub struct CarRow {
    /// The event's identifier, as the 128-bit value of its UUID.
    pub uuid: u128,
    pub car_image: RetainedImage,
    pub license_plate_image: RetainedImage,
    /// The recognised plate text, trimmed.
    pub license_plate_as_string: String,
    /// Local time at which the event was decoded.
    pub received_at_formatted: String,
}

impl CarRow {
    /// An event with the given parts, stamped with the local time now.
    pub fn new(
        uuid: u128,
        car_image: RetainedImage,
        license_plate_image: RetainedImage,
        license_plate_as_string: String,
    ) -> (r: Self)
        ensures
            r.uuid == uuid,
            r.car_image == car_image,
            r.license_plate_image == license_plate_image,
            r.license_plate_as_string@ == license_plate_as_string@,
    {
        let received_at_formatted = local_time_now();
        CarRow {
            uuid,
            car_image,
            license_plate_image,
            license_plate_as_string,
            received_at_formatted,
        }
    }
}

/// The buffer after `rows` have been inserted one by one, each at the front,
/// into `buffer`.
pub open spec fn after_inserting<T>(buffer: Seq<T>, rows: Seq<T>) -> Seq<T>
    decreases rows.len(),
{
    if rows.len() == 0 {
        buffer
    } else {
        seq![rows.last()] + after_inserting(buffer, rows.drop_last())
    }
}

/// Puts a newly decoded event at the front of the event buffer.
pub fn record_event(rows: &mut Vec<CarRow>, row: CarRow)
    ensures
        final(rows)@ == seq![row] + old(rows)@,
{
    rows.insert(0, row);
}

/// Events recorded one after another stand newest first: the buffer begins
/// with the recorded events in reverse order of recording, followed by what
/// it held before.
pub proof fn lemma_newest_first<T>(buffer: Seq<T>, rows: Seq<T>)
    ensures
        after_inserting(buffer, rows) == rows.reverse() + buffer,
    decreases rows.len(),
{
    if rows.len() > 0 {
        lemma_newest_first(buffer, rows.drop_last());
        assert(rows.reverse() =~= seq![rows.last()] + rows.drop_last().reverse());
        assert(after_inserting(buffer, rows) =~= rows.reverse() + buffer);
    } else {
        assert(rows.reverse() + buffer =~= buffer);
    }
}

} // verus!
