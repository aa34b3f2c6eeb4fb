use hall_signals::command::Command;
use hall_signals::entity_set::EntitySet;
use hall_signals::player::{Held, RightHand};
use hall_signals::signal_preview::{
    initialize_signal_preview, ShapeCast, SignalPreview, SIGNAL_SHAPE_DEPTH,
};

#[test]
fn preview_starts_empty() {
    assert_eq!(SIGNAL_SHAPE_DEPTH, 2);
    assert!(initialize_signal_preview().highlighted_entities.is_empty());
    assert!(SignalPreview::new().highlighted_entities.is_empty());
}

#[test]
fn preview_tints_what_the_signal_would_reach() {
    let mut preview = SignalPreview::new();
    let hand = RightHand { held_object: Some(1) };
    let cast = ShapeCast { hit: 5, at_hit: vec![5, 6], nearby: vec![7, 6] };
    assert_eq!(
        preview.update_signal_preview(1, &hand, Some(cast)),
        vec![Command::Highlight(5), Command::Highlight(6), Command::Highlight(7)]
    );
    assert_eq!(preview.highlighted_entities.to_vec(), vec![5, 6, 7]);

    let cast = ShapeCast { hit: 6, at_hit: vec![8], nearby: vec![] };
    assert_eq!(
        preview.update_signal_preview(1, &hand, Some(cast)),
        vec![Command::Unhighlight(5), Command::Unhighlight(7), Command::Highlight(8)]
    );
    assert_eq!(preview.highlighted_entities.to_vec(), vec![6, 8]);

    assert_eq!(
        preview.update_signal_preview(1, &hand, None),
        vec![Command::Unhighlight(6), Command::Unhighlight(8)]
    );
    assert!(preview.highlighted_entities.is_empty());
}

#[test]
fn preview_of_a_spitter_not_in_hand_stays() {
    let mut preview = SignalPreview { highlighted_entities: EntitySet::from_vec(&vec![5]) };
    let cast = ShapeCast { hit: 9, at_hit: vec![], nearby: vec![] };
    assert_eq!(
        preview.update_signal_preview(1, &RightHand { held_object: Some(2) }, Some(cast)),
        vec![]
    );
    assert_eq!(preview.highlighted_entities.to_vec(), vec![5]);
    assert_eq!(preview.update_signal_preview(1, &RightHand::new(), None), vec![]);
    assert_eq!(preview.highlighted_entities.to_vec(), vec![5]);
}

#[test]
fn dropping_the_spitter_clears_the_preview() {
    let mut preview = SignalPreview { highlighted_entities: EntitySet::from_vec(&vec![5, 6]) };
    assert_eq!(
        preview.cleanup_signal_preview_on_drop(),
        vec![Command::Unhighlight(5), Command::Unhighlight(6)]
    );
    assert!(preview.highlighted_entities.is_empty());
    assert_eq!(preview.clear(), vec![]);
}

#[test]
fn invalid_placement_clears_the_preview() {
    let mut preview = SignalPreview { highlighted_entities: EntitySet::from_vec(&vec![5]) };
    assert_eq!(
        preview.cleanup_signal_preview_on_invalid_placement(&Held { can_release: true }),
        vec![]
    );
    assert_eq!(preview.highlighted_entities.to_vec(), vec![5]);
    assert_eq!(
        preview.cleanup_signal_preview_on_invalid_placement(&Held { can_release: false }),
        vec![Command::Unhighlight(5)]
    );
    assert!(preview.highlighted_entities.is_empty());
}
