//! Rendering: the single line of text each invocation prints.

use vstd::prelude::*;
use crate::model::{Device, PlaybackState};

verus! {

/// The artist names joined in input order with a literal `", "` between
/// neighbours; a single name stands alone, an empty list gives the empty
/// string.
pub open spec fn join_artists(names: Seq<Seq<char>>) -> Seq<char>
    decreases names.len(),
{
    if names.len() == 0 {
        Seq::empty()
    } else if names.len() == 1 {
        names[0]
    } else {
        names[0] + ", "@ + join_artists(names.skip(1))
    }
}

/// Appending one more name to a non-empty list appends `", "` and that name
/// to the joined text.
pub proof fn lemma_join_artists_push(names: Seq<Seq<char>>, x: Seq<char>)
    requires
        names.len() >= 1,
    ensures
        join_artists(names.push(x)) == join_artists(names) + ", "@ + x,
    decreases names.len(),
{
    if names.len() == 1 {
        assert(names.push(x).skip(1) =~= seq![x]);
        assert(names.push(x)[0] == names[0]);
        assert(join_artists(seq![x]) == x);
        assert(join_artists(names.push(x)) == names[0] + ", "@ + x);
    } else {
        assert(names.push(x).skip(1) =~= names.skip(1).push(x));
        lemma_join_artists_push(names.skip(1), x);
    }
}

/// Joining exactly one name gives that name back, with no separator.
pub proof fn lemma_join_single(name: Seq<char>)
    ensures
        join_artists(seq![name]) == name,
{
}

/// Renders the artist list for the status line: the names joined with
/// `", "` in input order.
pub fn render_artist(artists: &Vec<String>) -> (r: String)
    ensures
        r@ == join_artists(artists.deep_view()),
{
    let ghost names = artists.deep_view();
    let mut out = String::new();
    if artists.len() == 0 {
        return out;
    }
    out.append(artists[0].as_str());
    assert(out@ == join_artists(names.take(1)));
    let mut i: usize = 1;
    while i < artists.len()
        invariant
            1 <= i <= artists.len(),
            names == artists.deep_view(),
            names.len() == artists.len(),
            out@ == join_artists(names.take(i as int)),
        decreases artists.len() - i,
    {
        out.append(", ");
        out.append(artists[i].as_str());
        proof {
            lemma_join_artists_push(names.take(i as int), names[i as int]);
            assert(names.take(i as int).push(names[i as int]) =~= names.take(i + 1));
        }
        i = i + 1;
    }
    proof {
        assert(names.take(names.len() as int) =~= names);
    }
    out
}

/// The status line: `"Nothing."` when no playback is active, otherwise the
/// joined artists, a literal `": "`, and the track name.
pub open spec fn spec_status_line(playing: Option<PlaybackState>) -> Seq<char> {
    match playing {
        None => "Nothing."@,
        Some(p) => join_artists(p.artist_names.deep_view()) + ": "@ + p.track_name@,
    }
}

/// Renders the `status` subcommand's one line of output.
pub fn status_line(playing: &Option<PlaybackState>) -> (r: String)
    ensures
        r@ == spec_status_line(*playing),
{
    match playing {
        None => "Nothing.".to_owned(),
        Some(p) => {
            let mut out = render_artist(&p.artist_names);
            out.append(": ");
            out.append(p.track_name.as_str());
            out
        },
    }
}

/// The label the status-bar button shows: the pause label while playing,
/// the play label otherwise.
pub open spec fn spec_button_label(is_playing: bool, play_label: Seq<char>, pause_label: Seq<char>) -> Seq<char> {
    if is_playing {
        pause_label
    } else {
        play_label
    }
}

/// Whatever the flag says, the shown label is always one of the two
/// configured labels.
pub proof fn lemma_button_label_in_labels(is_playing: bool, play_label: Seq<char>, pause_label: Seq<char>)
    ensures
        spec_button_label(is_playing, play_label, pause_label) == play_label
            || spec_button_label(is_playing, play_label, pause_label) == pause_label,
{
}

/// Renders the `play-button` subcommand's one line of output.
pub fn play_button_label(is_playing: bool, play_label: &str, pause_label: &str) -> (r: String)
    ensures
        r@ == spec_button_label(is_playing, play_label@, pause_label@),
{
    if is_playing {
        pause_label.to_owned()
    } else {
        play_label.to_owned()
    }
}

/// One device's line in the `players` listing:
/// `"<name> <id> <true|false>"`.
pub open spec fn spec_device_line(d: Device) -> Seq<char> {
    d.name@ + " "@ + d.id@ + " "@ + (if d.is_active {
        "true"@
    } else {
        "false"@
    })
}

/// Renders one line of the device listing.
pub fn device_line(d: &Device) -> (r: String)
    ensures
        r@ == spec_device_line(*d),
{
    let mut out = d.name.clone();
    out.append(" ");
    out.append(d.id.as_str());
    out.append(" ");
    if d.is_active {
        out.append("true");
    } else {
        out.append("false");
    }
    out
}

/// Renders the whole device listing, one line per device, in the order the
/// service returned them.
pub fn device_lines(devices: &Vec<Device>) -> (r: Vec<String>)
    ensures
        r.deep_view() == devices@.map_values(|d: Device| spec_device_line(d)),
{
    let ghost goal = devices@.map_values(|d: Device| spec_device_line(d));
    let mut out: Vec<String> = Vec::new();
    let mut i: usize = 0;
    while i < devices.len()
        invariant
            i <= devices.len(),
            goal == devices@.map_values(|d: Device| spec_device_line(d)),
            out.deep_view() =~= goal.take(i as int),
        decreases devices.len() - i,
    {
        let ghost prev = out.deep_view();
        let line = device_line(&devices[i]);
        out.push(line);
        proof {
            assert(out.deep_view() =~= prev.push(line@));
            assert(prev.push(line@) =~= goal.take(i + 1));
        }
        i = i + 1;
    }
    proof {
        assert(goal.take(goal.len() as int) =~= goal);
    }
    out
}

/// The uniform line printed to standard output when any action fails.
pub fn error_line() -> (r: String)
    ensures
        r@ == "Error."@,
{
    "Error.".to_owned()
}

} // verus!
