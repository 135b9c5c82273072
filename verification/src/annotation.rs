//! Boxes drawn on frames, and how a box is carried from keyframe to keyframe.
use vstd::prelude::*;
use crate::config::{initial_label, Label, LabelConfigs};

verus! {

/// A point with coordinates of any number type.
#[derive(Debug)]
pub struct SerializablePoint<T> {
    pub x: T,
    pub y: T,
}

impl<T: Copy> SerializablePoint<T> {
    /// The point with these coordinates.
    pub fn new(x: T, y: T) -> (point: Self)
        ensures
            point.x == x,
            point.y == y,
    {
        Self { x, y }
    }
}

impl<T: Copy> Clone for SerializablePoint<T> {
    fn clone(&self) -> (copy: Self)
        ensures
            copy == *self,
    {
        Self { x: self.x, y: self.y }
    }
}

/// A box with sides along the axes, given by its corners with the lowest
/// and the highest coordinates.
#[derive(Debug)]
pub struct SerializableAabb<T> {
    pub mins: SerializablePoint<T>,
    pub maxs: SerializablePoint<T>,
}

impl<T: Copy> Clone for SerializableAabb<T> {
    fn clone(&self) -> (copy: Self)
        ensures
            copy == *self,
    {
        Self { mins: self.mins.clone(), maxs: self.maxs.clone() }
    }
}

/// The corners of a box: left or right, up or down.
#[derive(PartialEq, Eq, Structural, Copy, Clone, Debug)]
pub enum BoxCorner {
    LU,
    RU,
    RD,
    LD,
}

/// Where a corner of a box lies: left is the lowest x, up the lowest y.
pub open spec fn corner_point<T>(corner: BoxCorner, b: SerializableAabb<T>) -> SerializablePoint<T> {
    match corner {
        BoxCorner::LU => SerializablePoint { x: b.mins.x, y: b.mins.y },
        BoxCorner::RU => SerializablePoint { x: b.maxs.x, y: b.mins.y },
        BoxCorner::RD => SerializablePoint { x: b.maxs.x, y: b.maxs.y },
        BoxCorner::LD => SerializablePoint { x: b.mins.x, y: b.maxs.y },
    }
}

impl BoxCorner {
    /// Where this corner of the box lies.
    pub fn from_serializable_aabb<T: Copy>(&self, b: &SerializableAabb<T>) -> (point:
        SerializablePoint<T>)
        ensures
            point == corner_point(*self, *b),
    {
        match self {
            BoxCorner::LU => SerializablePoint::new(b.mins.x, b.mins.y),
            BoxCorner::RU => SerializablePoint::new(b.maxs.x, b.mins.y),
            BoxCorner::RD => SerializablePoint::new(b.maxs.x, b.maxs.y),
            BoxCorner::LD => SerializablePoint::new(b.mins.x, b.maxs.y),
        }
    }
}

/// Copies a list of labels.
pub fn clone_labels(labels: &Vec<Label>) -> (copy: Vec<Label>)
    ensures
        copy@ == labels@,
{
    let mut copy: Vec<Label> = Vec::new();
    let mut i: usize = 0;
    while i < labels.len()
        invariant
            i <= labels@.len(),
            copy@ == labels@.take(i as int),
        decreases labels@.len() - i,
    {
        copy.push(labels[i].clone());
        assert(labels@.take(i as int).push(labels@[i as int]) =~= labels@.take(i as int + 1));
        i += 1;
    }
    assert(labels@.take(labels@.len() as int) =~= labels@);
    copy
}

/// A labelled box on one frame.
#[derive(Debug)]
pub struct Annotation<T> {
    /// One label for each label configuration, in their order.
    pub labels: Vec<Label>,
    pub bbox: SerializableAabb<T>,
    pub frame: usize,
    /// The object has left the picture: the sequence stops here.
    pub invisible: bool,
    /// The annotation was carried over from keyframes, not drawn.
    pub interpolated: bool,
}

/// An annotation as a plain value.
pub ghost struct AnnotationView<T> {
    pub labels: Seq<Label>,
    pub bbox: SerializableAabb<T>,
    pub frame: usize,
    pub invisible: bool,
    pub interpolated: bool,
}

impl<T> View for Annotation<T> {
    type V = AnnotationView<T>;

    open spec fn view(&self) -> AnnotationView<T> {
        AnnotationView {
            labels: self.labels@,
            bbox: self.bbox,
            frame: self.frame,
            invisible: self.invisible,
            interpolated: self.interpolated,
        }
    }
}

impl<T: Copy> Clone for Annotation<T> {
    fn clone(&self) -> (copy: Self)
        ensures
            copy@ == self@,
    {
        Annotation {
            labels: clone_labels(&self.labels),
            bbox: self.bbox.clone(),
            frame: self.frame,
            invisible: self.invisible,
            interpolated: self.interpolated,
        }
    }
}

impl<T: Copy> Annotation<T> {
    /// A new keyframe annotation on `frame`: a box that is the single point
    /// `(start_x, start_y)`, visible, with every label at its initial value.
    pub fn new(config: &LabelConfigs, start_x: T, start_y: T, frame: usize) -> (annotation: Self)
        requires
            config.startable(),
        ensures
            annotation.frame == frame,
            !annotation.invisible,
            !annotation.interpolated,
            annotation.bbox.mins == (SerializablePoint { x: start_x, y: start_y }),
            annotation.bbox.maxs == (SerializablePoint { x: start_x, y: start_y }),
            annotation.labels@.len() == config.label_configs@.len(),
            forall|i: int|
                0 <= i < annotation.labels@.len() ==> #[trigger] annotation.labels@[i]
                    == initial_label(config.label_configs@[i]),
    {
        Annotation {
            labels: config.initial_labels(),
            bbox: SerializableAabb {
                mins: SerializablePoint::new(start_x, start_y),
                maxs: SerializablePoint::new(start_x, start_y),
            },
            frame,
            invisible: false,
            interpolated: false,
        }
    }

    /// Whether the annotation is written when annotations are saved: all
    /// are, unless only visible ones are asked for, which leaves out those
    /// that are both invisible and interpolated.
    pub fn is_saved(&self, save_only_visible: bool) -> (saved: bool)
        ensures
            saved == self::saved(self@, save_only_visible),
    {
        !save_only_visible || !self.invisible || !self.interpolated
    }
}

/// The index of the first annotation on `frame` or later; the number of
/// annotations if there is none.
pub open spec fn first_reaching<T>(annotations: Seq<AnnotationView<T>>, frame: usize) -> int
    decreases annotations.len(),
{
    if annotations.len() == 0 {
        0
    } else if annotations[0].frame >= frame {
        0
    } else {
        1 + first_reaching(annotations.skip(1), frame)
    }
}

/// `first_reaching` is the one index with only earlier frames before it
/// and, where it is an index of the sequence, a frame that is not earlier.
pub proof fn lemma_first_reaching<T>(annotations: Seq<AnnotationView<T>>, frame: usize, index: int)
    requires
        0 <= index <= annotations.len(),
        forall|j: int| 0 <= j < index ==> (#[trigger] annotations[j]).frame < frame,
        index < annotations.len() ==> annotations[index].frame >= frame,
    ensures
        first_reaching(annotations, frame) == index,
    decreases index,
{
    if index > 0 {
        let rest = annotations.skip(1);
        assert(annotations[0].frame < frame);
        assert forall|j: int| 0 <= j < index - 1 implies (#[trigger] rest[j]).frame < frame by {
            assert(rest[j] == annotations[j + 1]);
        }
        lemma_first_reaching(rest, frame, index - 1);
    }
}

/// `first_reaching` lies within the sequence or just behind it; before it
/// all frames are earlier, and at it the frame is not.
pub proof fn lemma_first_reaching_bounds<T>(annotations: Seq<AnnotationView<T>>, frame: usize)
    ensures
        0 <= first_reaching(annotations, frame) <= annotations.len(),
        forall|j: int|
            0 <= j < first_reaching(annotations, frame) ==> (#[trigger] annotations[j]).frame
                < frame,
        first_reaching(annotations, frame) < annotations.len() ==> annotations[first_reaching(
            annotations,
            frame,
        )].frame >= frame,
    decreases annotations.len(),
{
    if annotations.len() > 0 && annotations[0].frame < frame {
        let rest = annotations.skip(1);
        lemma_first_reaching_bounds(rest, frame);
        assert forall|j: int| 0 <= j < first_reaching(annotations, frame) implies (
        #[trigger] annotations[j]).frame < frame by {
            if j > 0 {
                assert(annotations[j] == rest[j - 1]);
            }
        }
        assert(first_reaching(rest, frame) < rest.len() ==> rest[first_reaching(rest, frame)]
            == annotations[first_reaching(annotations, frame)]);
    }
}

/// The annotations that `frame` lies between: the index of the annotation
/// at or before the frame and, where the frame lies strictly between two
/// annotations, the index of the one after it. There is none for a frame
/// before the first annotation.
pub open spec fn bracket<T>(annotations: Seq<AnnotationView<T>>, frame: usize) -> Option<
    (usize, Option<usize>),
> {
    let index = first_reaching(annotations, frame);
    if index < annotations.len() {
        if annotations[index].frame == frame {
            Some((index as usize, None))
        } else if index == 0 {
            None
        } else {
            Some(((index - 1) as usize, Some(index as usize)))
        }
    } else if annotations.len() > 0 {
        Some(((annotations.len() - 1) as usize, None))
    } else {
        None
    }
}

/// The annotation of a frame, as far as it can be told without arithmetic
/// on coordinates.
#[derive(Debug)]
pub enum Interpolated<T> {
    /// The annotation as it stands: the keyframe on that frame, or the last
    /// keyframe before it carried on unchanged.
    Whole(Annotation<T>),
    /// The frame lies between the keyframes on `from` and `to`. The
    /// annotation has the first keyframe's labels and box; its box has
    /// still to be moved toward `toward`, the second keyframe's box, by the
    /// share of the way from `from` to `to` that the frame has gone.
    Blend { annotation: Annotation<T>, toward: SerializableAabb<T>, from: usize, to: usize },
}

/// An `Interpolated` as a plain value.
pub ghost enum InterpolatedView<T> {
    Whole(AnnotationView<T>),
    Blend { annotation: AnnotationView<T>, toward: SerializableAabb<T>, from: usize, to: usize },
}

impl<T> View for Interpolated<T> {
    type V = InterpolatedView<T>;

    open spec fn view(&self) -> InterpolatedView<T> {
        match *self {
            Interpolated::Whole(annotation) => InterpolatedView::Whole(annotation@),
            Interpolated::Blend { annotation, toward, from, to } => InterpolatedView::Blend {
                annotation: annotation@,
                toward,
                from,
                to,
            },
        }
    }
}

/// What was found for a frame, as a plain value.
pub open spec fn found_view<T>(found: Option<Interpolated<T>>) -> Option<InterpolatedView<T>> {
    match found {
        Some(interpolated) => Some(interpolated@),
        None => None,
    }
}

/// A keyframe's annotation carried to another frame.
pub open spec fn carried<T>(annotation: AnnotationView<T>, frame: usize) -> AnnotationView<T> {
    AnnotationView { frame, interpolated: true, ..annotation }
}

/// The annotation of `frame` in a sequence of keyframes.
pub open spec fn interpolated_of<T>(annotations: Seq<AnnotationView<T>>, frame: usize) -> Option<
    InterpolatedView<T>,
> {
    match bracket(annotations, frame) {
        None => None,
        Some((before, after)) => {
            let base = annotations[before as int];
            if base.frame == frame {
                Some(InterpolatedView::Whole(base))
            } else {
                match after {
                    None => Some(InterpolatedView::Whole(carried(base, frame))),
                    Some(after) => Some(
                        InterpolatedView::Blend {
                            annotation: carried(base, frame),
                            toward: annotations[after as int].bbox,
                            from: base.frame,
                            to: annotations[after as int].frame,
                        },
                    ),
                }
            }
        },
    }
}

/// An annotation made a keyframe of `frame`.
pub open spec fn keyed<T>(annotation: AnnotationView<T>, frame: usize) -> AnnotationView<T> {
    AnnotationView { frame, interpolated: false, ..annotation }
}

/// A sequence after `annotation` was drawn on `frame`: it replaces the
/// keyframe on that frame or becomes a new keyframe behind the one before
/// the frame. A frame before the first keyframe changes nothing.
pub open spec fn edited<T>(
    annotations: Seq<AnnotationView<T>>,
    frame: usize,
    annotation: AnnotationView<T>,
) -> Seq<AnnotationView<T>> {
    match bracket(annotations, frame) {
        None => annotations,
        Some((before, _)) => if annotations[before as int].frame == frame {
            annotations.update(before as int, keyed(annotation, frame))
        } else {
            annotations.insert(before + 1, keyed(annotation, frame))
        },
    }
}

/// A sequence after the labels and the visibility that hold on `frame` were
/// given to every annotation on that frame or later.
pub open spec fn propagated<T>(annotations: Seq<AnnotationView<T>>, frame: usize) -> Seq<
    AnnotationView<T>,
> {
    match bracket(annotations, frame) {
        None => annotations,
        Some((before, _)) => Seq::new(
            annotations.len(),
            |i: int|
                if annotations[i].frame >= frame {
                    AnnotationView {
                        labels: annotations[before as int].labels,
                        invisible: annotations[before as int].invisible,
                        ..annotations[i]
                    }
                } else {
                    annotations[i]
                },
        ),
    }
}

/// The annotations of a sequence that were drawn, not interpolated, in
/// their order.
pub open spec fn keyframes_of<T>(annotations: Seq<AnnotationView<T>>) -> Seq<AnnotationView<T>>
    decreases annotations.len(),
{
    if annotations.len() == 0 {
        Seq::empty()
    } else if annotations.last().interpolated {
        keyframes_of(annotations.drop_last())
    } else {
        keyframes_of(annotations.drop_last()).push(annotations.last())
    }
}

impl<T> InterpolatedView<T> {
    /// The annotation found, whole or still to be blended.
    pub open spec fn annotation(self) -> AnnotationView<T> {
        match self {
            InterpolatedView::Whole(annotation) => annotation,
            InterpolatedView::Blend { annotation, .. } => annotation,
        }
    }
}

impl<T> Interpolated<T> {
    /// The annotation found, whole or still to be blended.
    pub fn annotation(&self) -> (annotation: &Annotation<T>)
        ensures
            annotation@ == self@.annotation(),
    {
        match self {
            Interpolated::Whole(annotation) => annotation,
            Interpolated::Blend { annotation, .. } => annotation,
        }
    }
}

/// Whether an annotation is written when annotations are saved.
pub open spec fn saved<T>(annotation: AnnotationView<T>, only_visible: bool) -> bool {
    !only_visible || !annotation.invisible || !annotation.interpolated
}

/// What is saved of a sequence for the frames below `frame_count`: for each
/// frame in order the annotation of that frame, where there is one and it is
/// to be saved.
pub open spec fn sampled<T>(
    annotations: Seq<AnnotationView<T>>,
    frame_count: nat,
    only_visible: bool,
) -> Seq<InterpolatedView<T>>
    decreases frame_count,
{
    if frame_count == 0 {
        Seq::empty()
    } else {
        let rest = sampled(annotations, (frame_count - 1) as nat, only_visible);
        match interpolated_of(annotations, (frame_count - 1) as usize) {
            Some(found) => if saved(found.annotation(), only_visible) {
                rest.push(found)
            } else {
                rest
            },
            None => rest,
        }
    }
}

/// A list of found annotations as plain values.
pub open spec fn found_views<T>(found: Seq<Interpolated<T>>) -> Seq<InterpolatedView<T>> {
    Seq::new(found.len(), |i: int| found[i]@)
}

/// The keyframes of one object, in the order of their frames.
#[derive(Debug)]
pub struct AnnotationSequence<T> {
    pub annotations: Vec<Annotation<T>>,
}

/// A list of annotations as plain values.
pub open spec fn views_of<T>(annotations: Seq<Annotation<T>>) -> Seq<AnnotationView<T>> {
    Seq::new(annotations.len(), |i: int| annotations[i]@)
}

impl<T> View for AnnotationSequence<T> {
    type V = Seq<AnnotationView<T>>;

    open spec fn view(&self) -> Seq<AnnotationView<T>> {
        views_of(self.annotations@)
    }
}

impl<T: Copy> AnnotationSequence<T> {
    /// A sequence without annotations.
    pub fn new() -> (sequence: Self)
        ensures
            sequence@ == Seq::<AnnotationView<T>>::empty(),
    {
        let sequence = Self { annotations: Vec::new() };
        assert(sequence@ =~= Seq::<AnnotationView<T>>::empty());
        sequence
    }

    /// The annotations that `frame` lies between.
    pub fn get_annotations_for_frame(&self, frame: usize) -> (found: Option<(usize, Option<usize>)>)
        ensures
            found == bracket(self@, frame),
            found is Some ==> found->Some_0.0 < self@.len(),
            found is Some && found->Some_0.1 is Some ==> found->Some_0.1->Some_0 == found->Some_0.0
                + 1 && found->Some_0.1->Some_0 < self@.len(),
    {
        let mut i: usize = 0;
        while i < self.annotations.len()
            invariant
                i <= self.annotations@.len(),
                forall|j: int| 0 <= j < i ==> (#[trigger] self@[j]).frame < frame,
            decreases self.annotations@.len() - i,
        {
            assert(self@[i as int] == self.annotations@[i as int]@);
            if self.annotations[i].frame == frame {
                proof {
                    lemma_first_reaching(self@, frame, i as int);
                }
                return Some((i, None));
            }
            if self.annotations[i].frame > frame {
                proof {
                    lemma_first_reaching(self@, frame, i as int);
                }
                if i == 0 {
                    return None;
                }
                return Some((i - 1, Some(i)));
            }
            i += 1;
        }
        proof {
            lemma_first_reaching(self@, frame, self@.len() as int);
        }
        if self.annotations.len() > 0 {
            Some((self.annotations.len() - 1, None))
        } else {
            None
        }
    }

    /// The annotation of `frame`: the keyframe on it, the last keyframe
    /// carried on, or what is to be blended from the two keyframes round it.
    pub fn get_interpolated_annotation_for_frame(&self, frame: usize) -> (found: Option<
        Interpolated<T>,
    >)
        ensures
            found_view(found) == interpolated_of(self@, frame),
    {
        match self.get_annotations_for_frame(frame) {
            None => None,
            Some((before, after)) => {
                let base = &self.annotations[before];
                assert(self@[before as int] == base@);
                if base.frame == frame {
                    return Some(Interpolated::Whole(base.clone()));
                }
                let mut annotation = base.clone();
                annotation.frame = frame;
                annotation.interpolated = true;
                match after {
                    None => Some(Interpolated::Whole(annotation)),
                    Some(after) => {
                        assert(self@[after as int] == self.annotations@[after as int]@);
                        Some(
                            Interpolated::Blend {
                                annotation,
                                toward: self.annotations[after].bbox.clone(),
                                from: base.frame,
                                to: self.annotations[after].frame,
                            },
                        )
                    },
                }
            },
        }
    }

    /// Draws `annotation` on `frame`.
    pub fn edit_annotation(&mut self, frame: usize, annotation: &Annotation<T>)
        ensures
            final(self)@ == edited(old(self)@, frame, annotation@),
    {
        match self.get_annotations_for_frame(frame) {
            None => {},
            Some((before, _)) => {
                let ghost start = self@;
                let mut keyframe = annotation.clone();
                keyframe.frame = frame;
                keyframe.interpolated = false;
                assert(keyframe@ == keyed(annotation@, frame));
                assert(start[before as int] == self.annotations@[before as int]@);
                let len: usize = self.annotations.len();
                assert(before < len);
                if self.annotations[before].frame == frame {
                    self.annotations.set(before, keyframe);
                    assert(self@ =~= start.update(before as int, keyed(annotation@, frame)));
                } else {
                    self.annotations.insert(before + 1, keyframe);
                    assert(self@ =~= start.insert(before + 1, keyed(annotation@, frame)));
                }
            },
        }
    }

    /// Gives the labels and the visibility that hold on `frame` to every
    /// annotation on that frame or later. The boxes stay.
    pub fn propagate(&mut self, frame: usize)
        ensures
            final(self)@ == propagated(old(self)@, frame),
    {
        match self.get_annotations_for_frame(frame) {
            None => {},
            Some((before, after)) => {
                let ghost start = self@;
                assert(start[before as int] == self.annotations@[before as int]@);
                let labels = clone_labels(&self.annotations[before].labels);
                let invisible = self.annotations[before].invisible;
                let mut i: usize = 0;
                while i < self.annotations.len()
                    invariant
                        i <= self.annotations@.len(),
                        self.annotations@.len() == start.len(),
                        before < start.len(),
                        labels@ == start[before as int].labels,
                        invisible == start[before as int].invisible,
                        bracket(start, frame) == Some((before, after)),
                        forall|j: int| 0 <= j < i ==> #[trigger] self@[j] == propagated(start, frame)[j],
                        forall|j: int| i <= j < start.len() ==> #[trigger] self@[j] == start[j],
                    decreases self.annotations@.len() - i,
                {
                    assert(self@[i as int] == self.annotations@[i as int]@);
                    assert(self@[i as int] == start[i as int]);
                    let ghost before_step = self@;
                    if self.annotations[i].frame >= frame {
                        let current = &self.annotations[i];
                        let updated = Annotation {
                            labels: clone_labels(&labels),
                            bbox: current.bbox.clone(),
                            frame: current.frame,
                            invisible,
                            interpolated: current.interpolated,
                        };
                        self.annotations.set(i, updated);
                        assert(self@ =~= before_step.update(i as int, updated@));
                    }
                    i += 1;
                }
                assert(self@ =~= propagated(start, frame));
            },
        }
    }

    /// What is saved of the sequence for the frames below `frame_count`.
    pub fn saved_annotations(&self, frame_count: usize, save_only_visible: bool) -> (found: Vec<
        Interpolated<T>,
    >)
        ensures
            found_views(found@) == sampled(self@, frame_count as nat, save_only_visible),
    {
        let mut found: Vec<Interpolated<T>> = Vec::new();
        let mut frame: usize = 0;
        assert(found_views(found@) =~= sampled(self@, 0, save_only_visible));
        while frame < frame_count
            invariant
                frame <= frame_count,
                found_views(found@) == sampled(self@, frame as nat, save_only_visible),
            decreases frame_count - frame,
        {
            match self.get_interpolated_annotation_for_frame(frame) {
                Some(annotation) => {
                    if annotation.annotation().is_saved(save_only_visible) {
                        let ghost before = found@;
                        let ghost view = annotation@;
                        found.push(annotation);
                        assert(found_views(found@) =~= found_views(before).push(view));
                    }
                },
                None => {},
            }
            frame += 1;
        }
        found
    }

    /// The sequence without its interpolated annotations.
    pub fn keyframes(&self) -> (kept: Self)
        ensures
            kept@ == keyframes_of(self@),
    {
        let mut kept: Vec<Annotation<T>> = Vec::new();
        let mut i: usize = 0;
        assert(views_of(kept@) =~= keyframes_of(self@.take(0)));
        while i < self.annotations.len()
            invariant
                i <= self.annotations@.len(),
                views_of(kept@) == keyframes_of(self@.take(i as int)),
            decreases self.annotations@.len() - i,
        {
            assert(self@.take(i as int + 1).drop_last() =~= self@.take(i as int));
            assert(self@.take(i as int + 1).last() == self.annotations@[i as int]@);
            if !self.annotations[i].interpolated {
                let ghost kept_before = kept@;
                let copy = self.annotations[i].clone();
                kept.push(copy);
                assert(views_of(kept@) =~= views_of(kept_before).push(copy@));
            }
            i += 1;
        }
        assert(self@.take(self@.len() as int) =~= self@);
        Self { annotations: kept }
    }
}

/// Between two keyframes the frame lies strictly after the first and
/// strictly before the second, so the share of the way that it has gone is
/// well defined and lies between 0 and 1.
pub proof fn lemma_blend_lies_between<T>(annotations: Seq<AnnotationView<T>>, frame: usize)
    requires
        annotations.len() <= usize::MAX,
        interpolated_of(annotations, frame) matches Some(InterpolatedView::Blend { .. }),
    ensures
        interpolated_of(annotations, frame) matches Some(
            InterpolatedView::Blend { annotation, toward, from, to },
        ) && from < frame < to && annotation.frame == frame && annotation.interpolated,
{
    lemma_first_reaching_bounds(annotations, frame);
    let index = first_reaching(annotations, frame);
    assert(0 < index < annotations.len());
    assert(annotations[index - 1].frame < frame);
}

/// The annotations stand in the order of their frames, no frame twice.
pub open spec fn frames_rise<T>(annotations: Seq<AnnotationView<T>>) -> bool {
    forall|i: int, j: int|
        0 <= i < j < annotations.len() ==> (#[trigger] annotations[i]).frame < (
        #[trigger] annotations[j]).frame
}

/// Drawing on a frame keeps a sequence in the order of its frames, and where
/// the frame is not before the first keyframe, the sequence then has the
/// drawn annotation as its keyframe on that frame.
pub proof fn lemma_edit_keeps_order<T>(
    annotations: Seq<AnnotationView<T>>,
    frame: usize,
    annotation: AnnotationView<T>,
)
    requires
        annotations.len() < usize::MAX,
        frames_rise(annotations),
    ensures
        frames_rise(edited(annotations, frame, annotation)),
        bracket(annotations, frame) is Some ==> (bracket(
            edited(annotations, frame, annotation),
            frame,
        ) matches Some((position, None)) && edited(annotations, frame, annotation)[position as int]
            == keyed(annotation, frame)),
        bracket(annotations, frame) is None ==> edited(annotations, frame, annotation)
            == annotations,
{
    lemma_first_reaching_bounds(annotations, frame);
    let index = first_reaching(annotations, frame);
    let after = edited(annotations, frame, annotation);
    if bracket(annotations, frame) is Some {
        assert forall|j: int| 0 <= j < index implies (#[trigger] after[j]).frame < frame by {
            assert(after[j] == annotations[j]);
        }
        assert(after[index] == keyed(annotation, frame));
        lemma_first_reaching(after, frame, index);
        assert forall|i: int, j: int| 0 <= i < j < after.len() implies (#[trigger] after[i]).frame
            < (#[trigger] after[j]).frame by {
            if index < annotations.len() && annotations[index].frame == frame {
                assert(after[i].frame == annotations[i].frame);
                assert(after[j].frame == annotations[j].frame);
            } else {
                if j < index {
                    assert(after[i] == annotations[i] && after[j] == annotations[j]);
                } else if j == index {
                    assert(after[i] == annotations[i]);
                } else if i == index {
                    assert(after[j] == annotations[j - 1]);
                    assert(annotations[index].frame <= annotations[j - 1].frame);
                } else if i < index {
                    assert(after[i] == annotations[i] && after[j] == annotations[j - 1]);
                } else {
                    assert(after[i] == annotations[i - 1] && after[j] == annotations[j - 1]);
                }
            }
        }
    }
}

/// Giving labels on keeps every annotation's frame, box and origin: only
/// labels and visibility change, and only from `frame` on.
pub proof fn lemma_propagate_keeps_boxes<T>(annotations: Seq<AnnotationView<T>>, frame: usize)
    ensures
        propagated(annotations, frame).len() == annotations.len(),
        forall|i: int|
            0 <= i < annotations.len() ==> {
                let before = annotations[i];
                let after = #[trigger] propagated(annotations, frame)[i];
                &&& after.frame == before.frame
                &&& after.bbox == before.bbox
                &&& after.interpolated == before.interpolated
                &&& before.frame < frame ==> after == before
            },
{
}

} // verus!
