//! Choosing the encoders a run may use, from what FFmpeg advertises and
//! what passes a short test encode on this machine.
use vstd::prelude::*;
use crate::codec::{canonical_encoder_spec, encoder_candidates, encoder_table, EncoderKind};
use crate::encoders::{
    encoder_list_contains, encoders_are, explaining_line, first_error_line, listing_names,
    named_row, requested_encoder, Encoder, EncoderSelection,
};
use crate::events::Event;
use crate::options::TargetCodec;
use crate::text::{copy_str, join2, join3};

verus! {

/// Whether `ev` reports on the table row `row` truthfully: a row the listing
/// does not name is not advertised; an advertised one is usable exactly when
/// its test encode succeeded, and otherwise carries the line that explains
/// the failure.
pub open spec fn event_fits<F: Fn(&Encoder) -> Result<(), String>>(
    ev: Event,
    row: (Seq<char>, EncoderKind),
    listing: Seq<char>,
    check: F,
) -> bool {
    ev matches Event::EncoderCandidateEvaluated { encoder, advertised, usable, detail } && encoder@
        == row.0 && if !listing_names(listing, row.0) {
        !advertised && !usable && (detail matches Some(d) && d@ == "not advertised by ffmpeg"@)
    } else {
        advertised && if usable {
            detail is None && exists|e: Encoder|
                e.name@ == row.0 && e.kind == row.1 && #[trigger] check.ensures((&e,), Ok::<(), String>(()))
        } else {
            exists|e: Encoder, reason: String|
                e.name@ == row.0 && e.kind == row.1 && #[trigger] check.ensures(
                    (&e,),
                    Err::<(), String>(reason),
                ) && (detail matches Some(d) && d@ == explaining_line(reason@))
        }
    }
}

pub open spec fn is_usable(ev: Event) -> bool {
    ev matches Event::EncoderCandidateEvaluated { usable, .. } && usable
}

/// The rows whose report says usable, in table order.
pub open spec fn usable_rows(rows: Seq<(Seq<char>, EncoderKind)>, evs: Seq<Event>) -> Seq<
    (Seq<char>, EncoderKind),
>
    decreases rows.len(),
{
    if rows.len() == 0 || evs.len() != rows.len() {
        Seq::empty()
    } else {
        let rest = usable_rows(rows.drop_last(), evs.drop_last());
        if is_usable(evs.last()) {
            rest.push(rows.last())
        } else {
            rest
        }
    }
}

/// `name: detail` for each advertised row whose test encode failed, in
/// table order.
pub open spec fn failure_lines(rows: Seq<(Seq<char>, EncoderKind)>, evs: Seq<Event>) -> Seq<Seq<char>>
    decreases rows.len(),
{
    if rows.len() == 0 || evs.len() != rows.len() {
        Seq::empty()
    } else {
        let rest = failure_lines(rows.drop_last(), evs.drop_last());
        match evs.last() {
            Event::EncoderCandidateEvaluated { advertised, usable, detail: Some(d), .. } => if advertised
                && !usable {
                rest.push(rows.last().0 + ": "@ + d@)
            } else {
                rest
            },
            _ => rest,
        }
    }
}

/// Texts joined by a semicolon and a space.
pub open spec fn semicolon_joined(s: Seq<Seq<char>>) -> Seq<char>
    decreases s.len(),
{
    if s.len() == 0 {
        Seq::empty()
    } else if s.len() == 1 {
        s[0]
    } else {
        semicolon_joined(s.drop_last()) + "; "@ + s.last()
    }
}

fn evaluated(name: &str, advertised: bool, usable: bool, detail: Option<String>) -> (ev: Event)
    ensures
        ev matches Event::EncoderCandidateEvaluated { encoder, advertised: a, usable: u, detail: d }
            && encoder@ == name@ && a == advertised && u == usable && d == detail,
{
    Event::EncoderCandidateEvaluated { encoder: copy_str(name), advertised, usable, detail }
}

/// Chooses the encoders for a run. `listing` is what `ffmpeg -encoders`
/// printed; `check` runs a short test encode with one encoder. Returns the
/// choice or the reason there is none, and the reports to make along the
/// way: one per encoder the codec's table names, in table order, when the
/// run chooses for itself; one for a named encoder that passed its check.
pub fn select_encoders<F: Fn(&Encoder) -> Result<(), String>>(
    listing: &str,
    requested: Option<&str>,
    codec: TargetCodec,
    check: F,
) -> (r: (Result<EncoderSelection, String>, Vec<Event>))
    requires
        forall|e: &Encoder| check.requires((e,)),
    ensures
        requested matches Some(req) ==> match named_row(
            encoder_table(codec),
            canonical_encoder_spec(req@, codec),
        ) {
            None => r.1@.len() == 0 && (r.0 matches Err(msg) && msg@ == "unsupported encoder: "@
                + req@ + ". Supported values: auto, "@ + crate::encoders::comma_joined(
                crate::encoders::table_names(encoder_table(codec)),
            )),
            Some(row) => if !listing_names(listing@, row.0) {
                r.1@.len() == 0 && (r.0 matches Err(msg) && msg@ == "requested encoder "@ + row.0
                    + " is not advertised by ffmpeg"@)
            } else {
                ||| (r.0 matches Ok(sel) && sel.explicit && encoders_are(sel.candidates@, seq![row])
                    && r.1@.len() == 1 && (r.1@[0] matches Event::EncoderCandidateEvaluated {
                    encoder,
                    advertised,
                    usable,
                    detail,
                } && encoder@ == row.0 && advertised && usable && detail is None) && exists|e: Encoder|
                    e.name@ == row.0 && e.kind == row.1 && #[trigger] check.ensures(
                        (&e,),
                        Ok::<(), String>(()),
                    ))
                ||| (r.1@.len() == 0 && exists|e: Encoder, reason: String|
                    e.name@ == row.0 && e.kind == row.1 && #[trigger] check.ensures(
                        (&e,),
                        Err::<(), String>(reason),
                    ) && (r.0 matches Err(msg) && msg@ == "requested encoder "@ + row.0
                        + " failed runtime encode check: "@ + explaining_line(reason@)))
            },
        },
        requested is None ==> {
            let rows = encoder_table(codec);
            if crate::encoders::advertised_rows(rows, listing@).len() == 0 {
                r.1@.len() == 0 && (r.0 matches Err(msg) && msg@ == "this ffmpeg build advertises no "@
                    + codec.label_text() + " encoder"@)
            } else {
                &&& r.1@.len() == rows.len()
                &&& forall|i: int|
                    0 <= i < rows.len() ==> event_fits(#[trigger] r.1@[i], rows[i], listing@, check)
                &&& match r.0 {
                    Ok(sel) => !sel.explicit && usable_rows(rows, r.1@).len() > 0 && encoders_are(
                        sel.candidates@,
                        usable_rows(rows, r.1@),
                    ),
                    Err(msg) => usable_rows(rows, r.1@).len() == 0 && msg@ == "this ffmpeg build advertises "@
                        + codec.label_text() + " encoders, but none of them worked: "@
                        + semicolon_joined(failure_lines(rows, r.1@)),
                }
            }
        },
{
    let mut events: Vec<Event> = Vec::new();
    match requested {
        Some(req) => {
            let encoder = match requested_encoder(listing, req, codec) {
                Ok(e) => e,
                Err(msg) => {
                    return (Err(msg), events);
                },
            };
            let res = check(&encoder);
            let ghost e = encoder;
            assert(check.ensures((&e,), res));
            match res {
                Ok(_u) => {
                    assert(res == Ok::<(), String>(()));
                    events.push(evaluated(encoder.name.as_str(), true, true, None));
                    let selection = EncoderSelection { candidates: vec![encoder], explicit: true };
                    proof {
                        assert(selection.candidates@[0] == e);
                    }
                    (Ok(selection), events)
                },
                Err(reason) => {
                    assert(check.ensures((&e,), Err::<(), String>(reason)));
                    let line = first_error_line(reason.as_str());
                    let mut msg = join3("requested encoder ", encoder.name.as_str(), " failed runtime encode check: ");
                    msg.append(line.as_str());
                    (Err(msg), events)
                },
            }
        },
        None => {
            let table = encoder_candidates(codec);
            let ghost rows = encoder_table(codec);
            let advertised = crate::encoders::detect_encoder_candidates_from_listing(listing, codec);
            if advertised.len() == 0 {
                let msg = join3("this ffmpeg build advertises no ", codec.label(), " encoder");
                return (Err(msg), events);
            }
            let mut candidates: Vec<Encoder> = Vec::new();
            let mut failures: String = String::new();
            let mut any_failure = false;
            let mut i: usize = 0;
            assert(rows.subrange(0, 0) =~= Seq::<(Seq<char>, EncoderKind)>::empty());
            while i < table.len()
                invariant
                    rows == encoder_table(codec),
                    crate::codec::matches_table(table@, rows),
                    i <= table.len(),
                    events@.len() == i,
                    forall|k: int| 0 <= k < i ==> event_fits(#[trigger] events@[k], rows[k], listing@, check),
                    encoders_are(candidates@, usable_rows(rows.subrange(0, i as int), events@)),
                    failures@ == semicolon_joined(failure_lines(rows.subrange(0, i as int), events@)),
                    any_failure == (failure_lines(rows.subrange(0, i as int), events@).len() > 0),
                    forall|e: &Encoder| check.requires((e,)),
                decreases table.len() - i,
            {
                let (name, kind) = table[i];
                let ghost before_events = events@;
                let ghost before_fail = failure_lines(rows.subrange(0, i as int), events@);
                let ghost before_use = usable_rows(rows.subrange(0, i as int), events@);
                let ghost prefix = rows.subrange(0, i as int);
                let ghost next = rows.subrange(0, i + 1);
                proof {
                    assert(next.drop_last() =~= prefix);
                    assert(next.last() == rows[i as int]);
                }
                if !encoder_list_contains(listing, name) {
                    events.push(evaluated(name, false, false, Some(copy_str("not advertised by ffmpeg"))));
                    proof {
                        assert(events@.drop_last() =~= before_events);
                        assert(failure_lines(next, events@) == before_fail);
                        assert(usable_rows(next, events@) == before_use);
                    }
                } else {
                    let encoder = Encoder { name: copy_str(name), kind };
                    let res = check(&encoder);
                    let ghost e = encoder;
                    assert(check.ensures((&e,), res));
                    match res {
                        Ok(_u) => {
                            assert(res == Ok::<(), String>(()));
                            events.push(evaluated(name, true, true, None));
                            candidates.push(encoder);
                            proof {
                                assert(events@.drop_last() =~= before_events);
                                assert(failure_lines(next, events@) == before_fail);
                                assert(usable_rows(next, events@) == before_use.push(rows[i as int]));
                                assert(event_fits(events@[i as int], rows[i as int], listing@, check)) by {
                                    assert(check.ensures((&e,), Ok::<(), String>(())));
                                }
                            }
                        },
                        Err(reason) => {
                            let detail = first_error_line(reason.as_str());
                            let entry = join3(name, ": ", detail.as_str());
                            events.push(evaluated(name, true, false, Some(detail)));
                            let ghost before_text = failures@;
                            if any_failure {
                                failures.append("; ");
                            }
                            failures.append(entry.as_str());
                            any_failure = true;
                            proof {
                                assert(events@.drop_last() =~= before_events);
                                assert(failure_lines(next, events@) == before_fail.push(entry@));
                                assert(before_fail.push(entry@).drop_last() =~= before_fail);
                                assert(usable_rows(next, events@) == before_use);
                                if before_fail.len() == 0 {
                                    assert(failures@ =~= entry@);
                                } else {
                                    assert(failures@ =~= before_text + "; "@ + entry@);
                                }
                                assert(event_fits(events@[i as int], rows[i as int], listing@, check)) by {
                                    assert(check.ensures((&e,), Err::<(), String>(reason)));
                                }
                            }
                        },
                    }
                }
                proof {
                    assert forall|k: int| 0 <= k < i + 1 implies event_fits(
                        #[trigger] events@[k],
                        rows[k],
                        listing@,
                        check,
                    ) by {
                        if k < i {
                            assert(events@[k] == before_events[k]);
                        }
                    }
                }
                i = i + 1;
            }
            assert(rows.subrange(0, rows.len() as int) =~= rows);
            if candidates.len() == 0 {
                let mut msg = join3("this ffmpeg build advertises ", codec.label(), " encoders, but none of them worked: ");
                msg.append(failures.as_str());
                (Err(msg), events)
            } else {
                (Ok(EncoderSelection { candidates, explicit: false }), events)
            }
        },
    }
}

} // verus!
