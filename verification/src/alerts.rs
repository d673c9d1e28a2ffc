//! Alerts raised by detected sound events, and their one-line rendering.

use vstd::prelude::*;
use crate::classify::{SoundLabel, label_text, lemma_label_text_injective};

verus! {

/// What the alert rules read of one detected event.
pub struct EventAssessment {
    /// The event's label.
    pub label: String,
    /// The event's confidence is above 0.8.
    pub above_loud_confidence: bool,
    /// The event's confidence is above 0.4.
    pub above_unusual_confidence: bool,
    /// With an ambient baseline whose average level the event's level
    /// exceeds by more than 20 dB: the excess in dB, as displayed. `None`
    /// when there is no baseline or the event does not exceed it that far.
    pub sudden_rise: Option<String>,
}

/// An alert, without the direction of the sound, which the caller copies
/// from the event it names.
pub struct AlertNotice {
    /// The position of the event that raised the alert.
    pub event: usize,
    /// 0 = info, 1 = warning, 2 = critical.
    pub severity: u8,
    /// Human-readable description.
    pub description: String,
    /// Type of sound that triggered the alert.
    pub sound_type: String,
}

impl View for AlertNotice {
    type V = (int, u8, Seq<char>, Seq<char>);

    open spec fn view(&self) -> (int, u8, Seq<char>, Seq<char>) {
        (self.event as int, self.severity, self.description@, self.sound_type@)
    }
}

/// The views of a sequence of alerts.
pub open spec fn notice_views(notices: Seq<AlertNotice>) -> Seq<(int, u8, Seq<char>, Seq<char>)> {
    notices.map_values(|n: AlertNotice| n@)
}

/// The alert that a loud noise raises.
pub open spec fn loud_noise_alert(index: int, label: Seq<char>) -> (int, u8, Seq<char>, Seq<char>) {
    (index, 1u8, "Loud noise detected: "@ + label, label)
}

/// The alert that an unusual sound raises.
pub open spec fn unusual_sound_alert(index: int) -> (int, u8, Seq<char>, Seq<char>) {
    (index, 0u8, "Unusual sound pattern detected"@, "unknown"@)
}

/// The alert that a sudden rise above the baseline raises.
pub open spec fn sudden_rise_alert(index: int, label: Seq<char>, excess: Seq<char>) -> (
    int,
    u8,
    Seq<char>,
    Seq<char>,
) {
    (index, 2u8, "Sudden loud event: "@ + label + " ("@ + excess + " dB above baseline)"@, label)
}

/// The alerts that the event at position `index` raises, in this order: a
/// warning for a noise with confidence above 0.8, an info for an unknown
/// sound with confidence above 0.4, a critical alert for a rise of more than
/// 20 dB above the baseline.
pub open spec fn event_alerts(index: int, event: EventAssessment) -> Seq<
    (int, u8, Seq<char>, Seq<char>),
> {
    let label = event.label@;
    let warning = if label == "noise"@ && event.above_loud_confidence {
        seq![loud_noise_alert(index, label)]
    } else {
        seq![]
    };
    let info = if label == "unknown"@ && event.above_unusual_confidence {
        seq![unusual_sound_alert(index)]
    } else {
        seq![]
    };
    let critical = match event.sudden_rise {
        Some(excess) => seq![sudden_rise_alert(index, label, excess@)],
        None => seq![],
    };
    warning + info + critical
}

/// The alerts that a sequence of events raises: those of each event in
/// turn, in the order of the events.
pub open spec fn all_alerts(events: Seq<EventAssessment>) -> Seq<(int, u8, Seq<char>, Seq<char>)>
    decreases events.len(),
{
    if events.len() == 0 {
        seq![]
    } else {
        all_alerts(events.drop_last()) + event_alerts(events.len() - 1, events.last())
    }
}

proof fn lemma_views_of_concat(a: Seq<AlertNotice>, b: Seq<AlertNotice>)
    ensures
        notice_views(a + b) == notice_views(a) + notice_views(b),
{
    assert(notice_views(a + b) =~= notice_views(a) + notice_views(b));
}

/// The alerts that the event at position `index` raises.
fn alerts_for_event(index: usize, event: &EventAssessment) -> (notices: Vec<AlertNotice>)
    ensures
        notice_views(notices@) == event_alerts(index as int, *event),
{
    let mut notices: Vec<AlertNotice> = Vec::new();
    let ghost label = event.label@;
    let ghost warning = if label == "noise"@ && event.above_loud_confidence {
        seq![loud_noise_alert(index as int, label)]
    } else {
        seq![]
    };
    let ghost info = if label == "unknown"@ && event.above_unusual_confidence {
        seq![unusual_sound_alert(index as int)]
    } else {
        seq![]
    };
    let noise = String::from_str("noise");
    if event.label == noise && event.above_loud_confidence {
        let mut description = String::from_str("Loud noise detected: ");
        description.append(event.label.as_str());
        notices.push(
            AlertNotice {
                event: index,
                severity: 1,
                description,
                sound_type: event.label.clone(),
            },
        );
    }
    assert(notice_views(notices@) =~= warning);
    let unknown = String::from_str("unknown");
    if event.label == unknown && event.above_unusual_confidence {
        notices.push(
            AlertNotice {
                event: index,
                severity: 0,
                description: String::from_str("Unusual sound pattern detected"),
                sound_type: String::from_str("unknown"),
            },
        );
    }
    assert(notice_views(notices@) =~= warning + info);
    match &event.sudden_rise {
        Some(excess) => {
            let mut description = String::from_str("Sudden loud event: ");
            description.append(event.label.as_str());
            description.append(" (");
            description.append(excess.as_str());
            description.append(" dB above baseline)");
            notices.push(
                AlertNotice {
                    event: index,
                    severity: 2,
                    description,
                    sound_type: event.label.clone(),
                },
            );
        },
        None => {},
    }
    assert(notice_views(notices@) =~= event_alerts(index as int, *event));
    notices
}

/// The alerts that the detected events raise, event by event in order.
pub fn assess_alerts(events: &[EventAssessment]) -> (notices: Vec<AlertNotice>)
    ensures
        notice_views(notices@) == all_alerts(events@),
{
    let mut notices: Vec<AlertNotice> = Vec::new();
    let mut i: usize = 0;
    while i < events.len()
        invariant
            i <= events@.len(),
            notice_views(notices@) == all_alerts(events@.take(i as int)),
        decreases events@.len() - i,
    {
        let mut more = alerts_for_event(i, &events[i]);
        let ghost before = notices@;
        let ghost added = more@;
        notices.append(&mut more);
        proof {
            lemma_views_of_concat(before, added);
            assert(events@.take(i + 1).drop_last() =~= events@.take(i as int));
            assert(events@.take(i + 1).last() == events@[i as int]);
        }
        i = i + 1;
    }
    assert(events@.take(events@.len() as int) =~= events@);
    notices
}

/// Every alert names one of the events, and alerts come in the order of
/// the events that raised them.
pub proof fn lemma_alerts_follow_event_order(events: Seq<EventAssessment>)
    ensures
        forall|p: int|
            0 <= p < all_alerts(events).len() ==> 0 <= #[trigger] all_alerts(events)[p].0
                < events.len(),
        forall|p: int, q: int|
            0 <= p < q < all_alerts(events).len() ==> #[trigger] all_alerts(events)[p].0
                <= #[trigger] all_alerts(events)[q].0,
    decreases events.len(),
{
    if events.len() > 0 {
        let prefix = events.drop_last();
        lemma_alerts_follow_event_order(prefix);
        let head = all_alerts(prefix);
        let tail = event_alerts(events.len() - 1, events.last());
        assert(all_alerts(events) == head + tail);
        assert forall|p: int| 0 <= p < tail.len() implies #[trigger] tail[p].0 == events.len()
            - 1 by {}
    }
}

/// One event raises at most two alerts: a label is never both "noise" and
/// "unknown".
pub proof fn lemma_at_most_two_alerts_per_event(index: int, event: EventAssessment)
    ensures
        event_alerts(index, event).len() <= 2,
{
    reveal_strlit("noise");
    reveal_strlit("unknown");
    if event.label@ == "noise"@ {
        assert(event.label@[0] != "unknown"@[0]);
    }
}

/// A noise whose confidence is above 0.8 raises a warning, "Loud noise
/// detected: noise", before any other alert of that event and after
/// those of the events before it.
pub proof fn lemma_loud_noise_warns_first(events: Seq<EventAssessment>, i: int)
    requires
        0 <= i < events.len(),
        events[i].label@ == "noise"@,
        events[i].above_loud_confidence,
    ensures
        exists|p: int|
            0 <= p < all_alerts(events).len() && all_alerts(events)[p] == loud_noise_alert(
                i,
                "noise"@,
            ) && forall|q: int| 0 <= q < p ==> #[trigger] all_alerts(events)[q].0 < i,
    decreases events.len(),
{
    let prefix = events.drop_last();
    lemma_alerts_follow_event_order(prefix);
    if i < events.len() - 1 {
        lemma_loud_noise_warns_first(prefix, i);
        let p = choose|p: int|
            0 <= p < all_alerts(prefix).len() && all_alerts(prefix)[p] == loud_noise_alert(
                i,
                "noise"@,
            ) && forall|q: int| 0 <= q < p ==> #[trigger] all_alerts(prefix)[q].0 < i;
        assert(all_alerts(events) == all_alerts(prefix) + event_alerts(
            events.len() - 1,
            events.last(),
        ));
        assert(all_alerts(events)[p] == all_alerts(prefix)[p]);
        assert forall|q: int| 0 <= q < p implies #[trigger] all_alerts(events)[q].0 < i by {
            assert(all_alerts(events)[q] == all_alerts(prefix)[q]);
        }
    } else {
        let p = all_alerts(prefix).len() as int;
        let own = event_alerts(i, events[i]);
        assert(own[0] == loud_noise_alert(i, "noise"@));
        assert(all_alerts(events) == all_alerts(prefix) + own);
        assert(all_alerts(events)[p] == own[0]);
        assert forall|q: int| 0 <= q < p implies #[trigger] all_alerts(events)[q].0 < i by {
            assert(all_alerts(events)[q] == all_alerts(prefix)[q]);
        }
    }
}

/// Whether an event raises no alert on its own account: no rise above the
/// baseline, and a label other than "noise" and "unknown".
pub open spec fn is_quiet_event(event: EventAssessment) -> bool {
    &&& event.sudden_rise is None
    &&& event.label@ != "noise"@
    &&& event.label@ != "unknown"@
}

/// Events without a rise above the baseline and labelled neither "noise"
/// nor "unknown" raise no alerts at all.
pub proof fn lemma_quiet_events_raise_no_alerts(events: Seq<EventAssessment>)
    requires
        forall|i: int| 0 <= i < events.len() ==> is_quiet_event(#[trigger] events[i]),
    ensures
        all_alerts(events).len() == 0,
    decreases events.len(),
{
    if events.len() > 0 {
        let prefix = events.drop_last();
        assert forall|i: int| 0 <= i < prefix.len() implies is_quiet_event(#[trigger] prefix[i]) by {
            assert(prefix[i] == events[i]);
        }
        lemma_quiet_events_raise_no_alerts(prefix);
        assert(is_quiet_event(events[events.len() - 1]));
    }
}

/// An event labelled silence, sine or speech-like by the classifier, with
/// no rise above the baseline, raises no alert.
pub proof fn lemma_calm_labels_are_quiet(label: SoundLabel, event: EventAssessment)
    requires
        label == SoundLabel::Silence || label == SoundLabel::Sine || label
            == SoundLabel::SpeechLike,
        event.label@ == label_text(label),
        event.sudden_rise is None,
    ensures
        is_quiet_event(event),
{
    lemma_label_text_injective(label, SoundLabel::Noise);
    lemma_label_text_injective(label, SoundLabel::Unknown);
}

/// The alert shape that is due for an event: its event position, and the
/// severity, description and sound type that the rules give it. An alert
/// of severity 2 reports the event's rise above the baseline, one of
/// severity 1 a noise with confidence above 0.8, one of severity 0 an
/// unknown sound with confidence above 0.4.
pub open spec fn alert_is_due(events: Seq<EventAssessment>, a: (int, u8, Seq<char>, Seq<char>)) -> bool {
    &&& 0 <= a.0 < events.len()
    &&& {
        let ev = events[a.0];
        if a.1 == 2 {
            &&& ev.sudden_rise is Some
            &&& a.2 == "Sudden loud event: "@ + ev.label@ + " ("@ + ev.sudden_rise->0@
                + " dB above baseline)"@
            &&& a.3 == ev.label@
        } else if a.1 == 1 {
            &&& ev.label@ == "noise"@
            &&& ev.above_loud_confidence
            &&& a.2 == "Loud noise detected: noise"@
            &&& a.3 == "noise"@
        } else if a.1 == 0 {
            &&& ev.label@ == "unknown"@
            &&& ev.above_unusual_confidence
            &&& a.2 == "Unusual sound pattern detected"@
            &&& a.3 == "unknown"@
        } else {
            false
        }
    }
}

/// The number of alerts of a given severity.
pub open spec fn count_severity(alerts: Seq<(int, u8, Seq<char>, Seq<char>)>, severity: u8) -> nat
    decreases alerts.len(),
{
    if alerts.len() == 0 {
        0
    } else {
        count_severity(alerts.drop_last(), severity) + if alerts.last().1 == severity {
            1nat
        } else {
            0nat
        }
    }
}

/// The number of events that rose more than 20 dB above the baseline.
pub open spec fn count_sudden_rises(events: Seq<EventAssessment>) -> nat
    decreases events.len(),
{
    if events.len() == 0 {
        0
    } else {
        count_sudden_rises(events.drop_last()) + if events.last().sudden_rise is Some {
            1nat
        } else {
            0nat
        }
    }
}

/// The number of events labelled "noise" with confidence above 0.8.
pub open spec fn count_loud_noises(events: Seq<EventAssessment>) -> nat
    decreases events.len(),
{
    if events.len() == 0 {
        0
    } else {
        count_loud_noises(events.drop_last()) + if events.last().label@ == "noise"@
            && events.last().above_loud_confidence {
            1nat
        } else {
            0nat
        }
    }
}

/// The number of events labelled "unknown" with confidence above 0.4.
pub open spec fn count_unusual_sounds(events: Seq<EventAssessment>) -> nat
    decreases events.len(),
{
    if events.len() == 0 {
        0
    } else {
        count_unusual_sounds(events.drop_last()) + if events.last().label@ == "unknown"@
            && events.last().above_unusual_confidence {
            1nat
        } else {
            0nat
        }
    }
}

proof fn lemma_count_concat(
    a: Seq<(int, u8, Seq<char>, Seq<char>)>,
    b: Seq<(int, u8, Seq<char>, Seq<char>)>,
    severity: u8,
)
    ensures
        count_severity(a + b, severity) == count_severity(a, severity) + count_severity(b, severity),
    decreases b.len(),
{
    if b.len() == 0 {
        assert(a + b =~= a);
    } else {
        lemma_count_concat(a, b.drop_last(), severity);
        assert((a + b).drop_last() =~= a + b.drop_last());
    }
}

proof fn lemma_count_single(x: (int, u8, Seq<char>, Seq<char>), severity: u8)
    ensures
        count_severity(seq![x], severity) == if x.1 == severity {
            1nat
        } else {
            0nat
        },
{
    assert(seq![x].drop_last() =~= Seq::<(int, u8, Seq<char>, Seq<char>)>::empty());
    assert(count_severity(Seq::<(int, u8, Seq<char>, Seq<char>)>::empty(), severity) == 0);
}

proof fn lemma_noise_is_not_unknown()
    ensures
        "noise"@ != "unknown"@,
{
    reveal_strlit("noise");
    reveal_strlit("unknown");
    assert("noise"@[0] != "unknown"@[0]);
}

/// The parts of one event's alerts.
proof fn lemma_event_alert_parts(index: int, event: EventAssessment)
    ensures
        ({
            let label = event.label@;
            let w = if label == "noise"@ && event.above_loud_confidence {
                seq![(index, 1u8, "Loud noise detected: noise"@, "noise"@)]
            } else {
                Seq::<(int, u8, Seq<char>, Seq<char>)>::empty()
            };
            let u = if label == "unknown"@ && event.above_unusual_confidence {
                seq![(index, 0u8, "Unusual sound pattern detected"@, "unknown"@)]
            } else {
                Seq::<(int, u8, Seq<char>, Seq<char>)>::empty()
            };
            let c = match event.sudden_rise {
                Some(x) => seq![
                    (
                        index,
                        2u8,
                        "Sudden loud event: "@ + label + " ("@ + x@ + " dB above baseline)"@,
                        label,
                    ),
                ],
                None => Seq::<(int, u8, Seq<char>, Seq<char>)>::empty(),
            };
            event_alerts(index, event) == w + u + c
        }),
{
    reveal_strlit("Loud noise detected: ");
    reveal_strlit("noise");
    reveal_strlit("Loud noise detected: noise");
    assert("Loud noise detected: "@ + "noise"@ =~= "Loud noise detected: noise"@);
}

/// Each alert that one event raises is due for it.
proof fn lemma_event_alerts_due(events: Seq<EventAssessment>, i: int)
    requires
        0 <= i < events.len(),
    ensures
        forall|k: int|
            0 <= k < event_alerts(i, events[i]).len() ==> alert_is_due(
                events,
                #[trigger] event_alerts(i, events[i])[k],
            ),
        count_severity(event_alerts(i, events[i]), 2) == if events[i].sudden_rise is Some {
            1nat
        } else {
            0nat
        },
        count_severity(event_alerts(i, events[i]), 1) == if events[i].label@ == "noise"@
            && events[i].above_loud_confidence {
            1nat
        } else {
            0nat
        },
        count_severity(event_alerts(i, events[i]), 0) == if events[i].label@ == "unknown"@
            && events[i].above_unusual_confidence {
            1nat
        } else {
            0nat
        },
{
    let ev = events[i];
    let label = ev.label@;
    lemma_event_alert_parts(i, ev);
    lemma_noise_is_not_unknown();
    let w = if label == "noise"@ && ev.above_loud_confidence {
        seq![(i, 1u8, "Loud noise detected: noise"@, "noise"@)]
    } else {
        Seq::<(int, u8, Seq<char>, Seq<char>)>::empty()
    };
    let u = if label == "unknown"@ && ev.above_unusual_confidence {
        seq![(i, 0u8, "Unusual sound pattern detected"@, "unknown"@)]
    } else {
        Seq::<(int, u8, Seq<char>, Seq<char>)>::empty()
    };
    let c = match ev.sudden_rise {
        Some(x) => seq![
            (i, 2u8, "Sudden loud event: "@ + label + " ("@ + x@ + " dB above baseline)"@, label),
        ],
        None => Seq::<(int, u8, Seq<char>, Seq<char>)>::empty(),
    };
    let all = event_alerts(i, ev);
    assert(all == w + u + c);
    assert forall|k: int| 0 <= k < all.len() implies alert_is_due(events, #[trigger] all[k]) by {
        if k < w.len() {
            assert(all[k] == w[k]);
        } else if k < w.len() + u.len() {
            assert(all[k] == u[k - w.len()]);
        } else {
            assert(all[k] == c[k - w.len() - u.len()]);
        }
    }
    assert forall|sev: u8| #![trigger count_severity(all, sev)]
        count_severity(all, sev) == count_severity(w, sev) + count_severity(u, sev)
            + count_severity(c, sev) by {
        lemma_count_concat(w + u, c, sev);
        lemma_count_concat(w, u, sev);
    }
    let e = Seq::<(int, u8, Seq<char>, Seq<char>)>::empty();
    assert(count_severity(e, 0) == 0 && count_severity(e, 1) == 0 && count_severity(e, 2) == 0);
    if label == "noise"@ && ev.above_loud_confidence {
        lemma_count_single(w[0], 0);
        lemma_count_single(w[0], 1);
        lemma_count_single(w[0], 2);
    }
    if label == "unknown"@ && ev.above_unusual_confidence {
        lemma_count_single(u[0], 0);
        lemma_count_single(u[0], 1);
        lemma_count_single(u[0], 2);
    }
    if ev.sudden_rise is Some {
        lemma_count_single(c[0], 0);
        lemma_count_single(c[0], 1);
        lemma_count_single(c[0], 2);
    }
    assert(count_severity(all, 0) == count_severity(w, 0) + count_severity(u, 0) + count_severity(c, 0));
    assert(count_severity(all, 1) == count_severity(w, 1) + count_severity(u, 1) + count_severity(c, 1));
    assert(count_severity(all, 2) == count_severity(w, 2) + count_severity(u, 2) + count_severity(c, 2));
}

/// Every alert raised is due for the event it names, and the alerts come
/// one per rule that applies: as many critical alerts as events that rose
/// more than 20 dB above the baseline, as many warnings as noises with
/// confidence above 0.8, as many infos as unknown sounds with confidence
/// above 0.4.
pub proof fn lemma_alerts_are_due_and_counted(events: Seq<EventAssessment>)
    ensures
        forall|p: int|
            0 <= p < all_alerts(events).len() ==> alert_is_due(events, #[trigger] all_alerts(events)[p]),
        count_severity(all_alerts(events), 2) == count_sudden_rises(events),
        count_severity(all_alerts(events), 1) == count_loud_noises(events),
        count_severity(all_alerts(events), 0) == count_unusual_sounds(events),
    decreases events.len(),
{
    if events.len() > 0 {
        let prefix = events.drop_last();
        let i = events.len() - 1;
        lemma_alerts_are_due_and_counted(prefix);
        lemma_event_alerts_due(events, i);
        let head = all_alerts(prefix);
        let tail = event_alerts(i, events[i]);
        assert(all_alerts(events) == head + tail);
        lemma_count_concat(head, tail, 0);
        lemma_count_concat(head, tail, 1);
        lemma_count_concat(head, tail, 2);
        assert forall|p: int| 0 <= p < all_alerts(events).len() implies alert_is_due(
            events,
            #[trigger] all_alerts(events)[p],
        ) by {
            if p < head.len() {
                let a = head[p];
                assert(alert_is_due(prefix, a));
                assert(all_alerts(events)[p] == a);
                assert(prefix[a.0] == events[a.0]);
            } else {
                assert(all_alerts(events)[p] == tail[p - head.len()]);
            }
        }
    }
}

/// The place of a severity among one event's alerts: the warning first,
/// then the info, then the critical alert.
pub open spec fn severity_rank(severity: u8) -> int {
    if severity == 1 {
        0
    } else if severity == 0 {
        1
    } else {
        2
    }
}

/// Of two alerts of the same event, the earlier is a loud-noise warning and
/// the later an info or critical alert, or the earlier an info and the later
/// critical: one event never raises two alerts of one severity.
pub proof fn lemma_alerts_of_an_event_in_order(events: Seq<EventAssessment>)
    ensures
        forall|p: int, q: int|
            0 <= p < q < all_alerts(events).len() && all_alerts(events)[p].0 == all_alerts(
                events,
            )[q].0 ==> severity_rank(#[trigger] all_alerts(events)[p].1) < severity_rank(
                #[trigger] all_alerts(events)[q].1,
            ),
    decreases events.len(),
{
    if events.len() > 0 {
        let prefix = events.drop_last();
        let i = events.len() - 1;
        lemma_alerts_of_an_event_in_order(prefix);
        lemma_alerts_follow_event_order(prefix);
        let ev = events[i];
        lemma_event_alert_parts(i, ev);
        let head = all_alerts(prefix);
        let tail = event_alerts(i, ev);
        assert(all_alerts(events) == head + tail);
        assert forall|p: int, q: int|
            0 <= p < q < all_alerts(events).len() && all_alerts(events)[p].0 == all_alerts(
                events,
            )[q].0 implies severity_rank(#[trigger] all_alerts(events)[p].1) < severity_rank(
            #[trigger] all_alerts(events)[q].1,
        ) by {
            if q < head.len() {
                assert(all_alerts(events)[p] == head[p]);
                assert(all_alerts(events)[q] == head[q]);
            } else if p < head.len() {
                assert(all_alerts(events)[p] == head[p]);
                assert(head[p].0 < prefix.len());
                assert(all_alerts(events)[q] == tail[q - head.len()]);
            } else {
                assert(all_alerts(events)[p] == tail[p - head.len()]);
                assert(all_alerts(events)[q] == tail[q - head.len()]);
            }
        }
    }
}

/// Each alert that the event at position `i` raises is among all alerts.
proof fn lemma_event_alerts_included(events: Seq<EventAssessment>, i: int, k: int)
    requires
        0 <= i < events.len(),
        0 <= k < event_alerts(i, events[i]).len(),
    ensures
        exists|p: int|
            0 <= p < all_alerts(events).len() && #[trigger] all_alerts(events)[p] == event_alerts(
                i,
                events[i],
            )[k],
    decreases events.len(),
{
    let prefix = events.drop_last();
    assert(all_alerts(events) == all_alerts(prefix) + event_alerts(
        events.len() - 1,
        events.last(),
    ));
    if i < events.len() - 1 {
        assert(prefix[i] == events[i]);
        lemma_event_alerts_included(prefix, i, k);
        let p = choose|p: int|
            0 <= p < all_alerts(prefix).len() && #[trigger] all_alerts(prefix)[p]
                == event_alerts(i, prefix[i])[k];
        assert(all_alerts(events)[p] == all_alerts(prefix)[p]);
    } else {
        let p = all_alerts(prefix).len() + k;
        assert(all_alerts(events)[p] == event_alerts(i, events[i])[k]);
    }
}

/// An event that rose more than 20 dB above the baseline raises the
/// critical alert "Sudden loud event: <label> (<excess> dB above
/// baseline)" of sound type <label>, whatever its label.
pub proof fn lemma_sudden_rise_raises_critical(events: Seq<EventAssessment>, i: int)
    requires
        0 <= i < events.len(),
        events[i].sudden_rise is Some,
    ensures
        exists|p: int|
            0 <= p < all_alerts(events).len() && #[trigger] all_alerts(events)[p] == (
                i,
                2u8,
                "Sudden loud event: "@ + events[i].label@ + " ("@ + events[i].sudden_rise->0@
                    + " dB above baseline)"@,
                events[i].label@,
            ),
{
    let ev = events[i];
    lemma_event_alert_parts(i, ev);
    let all = event_alerts(i, ev);
    let k = all.len() - 1;
    lemma_event_alerts_included(events, i, k);
}

/// An unknown sound with confidence above 0.4 raises the info alert
/// "Unusual sound pattern detected" of sound type "unknown".
pub proof fn lemma_unusual_sound_raises_info(events: Seq<EventAssessment>, i: int)
    requires
        0 <= i < events.len(),
        events[i].label@ == "unknown"@,
        events[i].above_unusual_confidence,
    ensures
        exists|p: int|
            0 <= p < all_alerts(events).len() && #[trigger] all_alerts(events)[p] == (
                i,
                0u8,
                "Unusual sound pattern detected"@,
                "unknown"@,
            ),
{
    let ev = events[i];
    lemma_event_alert_parts(i, ev);
    lemma_noise_is_not_unknown();
    lemma_event_alerts_included(events, i, 0);
}

/// The name of a severity: 0 is info, 1 warning, anything higher critical.
pub open spec fn severity_text(severity: u8) -> Seq<char> {
    if severity == 0 {
        "INFO"@
    } else if severity == 1 {
        "WARNING"@
    } else {
        "CRITICAL"@
    }
}

/// The name of a severity.
pub fn severity_name(severity: u8) -> (name: &'static str)
    ensures
        name@ == severity_text(severity),
{
    if severity == 0 {
        "INFO"
    } else if severity == 1 {
        "WARNING"
    } else {
        "CRITICAL"
    }
}

/// The one-line form of an alert: `[SEVERITY] description (type: t, dir: D°)`.
pub open spec fn alert_line(
    severity: u8,
    description: Seq<char>,
    sound_type: Seq<char>,
    direction: Seq<char>,
) -> Seq<char> {
    "["@ + severity_text(severity) + "] "@ + description + " (type: "@ + sound_type + ", dir: "@
        + direction + "\u{b0})"@
}

/// Renders an alert on one line, given its direction in whole degrees as
/// displayed.
pub fn render_alert(severity: u8, description: &str, sound_type: &str, direction: &str) -> (line:
    String)
    ensures
        line@ == alert_line(severity, description@, sound_type@, direction@),
{
    let mut line = String::from_str("[");
    line.append(severity_name(severity));
    line.append("] ");
    line.append(description);
    line.append(" (type: ");
    line.append(sound_type);
    line.append(", dir: ");
    line.append(direction);
    line.append("\u{b0})");
    line
}

/// Severity 0 is named "INFO", 1 "WARNING", and every higher severity
/// "CRITICAL".
pub proof fn lemma_severity_names(severity: u8)
    ensures
        severity == 0 ==> severity_text(severity) == "INFO"@,
        severity == 1 ==> severity_text(severity) == "WARNING"@,
        severity >= 2 ==> severity_text(severity) == "CRITICAL"@,
{
}

/// An alert line is "[<name>] <description> (type: <type>, dir:
/// <direction>°)", where the name is that of the alert's own severity:
/// "INFO" for 0, "WARNING" for 1, "CRITICAL" for 2 and above.
pub proof fn lemma_alert_line_shape(
    severity: u8,
    description: Seq<char>,
    sound_type: Seq<char>,
    direction: Seq<char>,
)
    ensures
        alert_line(severity, description, sound_type, direction) == "["@ + (if severity == 0 {
            "INFO"@
        } else if severity == 1 {
            "WARNING"@
        } else {
            "CRITICAL"@
        }) + "] "@ + description + " (type: "@ + sound_type + ", dir: "@ + direction
            + "\u{b0})"@,
        severity >= 2 ==> alert_line(severity, description, sound_type, direction).subrange(0, 11)
            == "[CRITICAL] "@,
{
    reveal_strlit("[");
    reveal_strlit("CRITICAL");
    reveal_strlit("] ");
    reveal_strlit("[CRITICAL] ");
    if severity >= 2 {
        let line = alert_line(severity, description, sound_type, direction);
        assert(line.subrange(0, 11) =~= "[CRITICAL] "@);
    }
}

} // verus!
