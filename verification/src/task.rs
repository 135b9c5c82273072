//! All the annotated objects of one sequence of frames.
use vstd::prelude::*;
use crate::annotation::{
    bracket, edited, found_view, interpolated_of, keyframes_of, Annotation, AnnotationSequence,
    AnnotationView, Interpolated, InterpolatedView,
};
use crate::config::{is_default_configs, LabelConfigs};

verus! {

/// The annotation sequences of a labelling task, one for each object, and
/// the labels that their annotations carry.
#[derive(Debug)]
pub struct LabelTask<T> {
    pub sequences: Vec<AnnotationSequence<T>>,
    /// The index of the sequence that is being worked on.
    pub current_sequence: usize,
    pub configs: LabelConfigs,
}

/// A list of sequences as plain values.
pub open spec fn sequence_views<T>(sequences: Seq<AnnotationSequence<T>>) -> Seq<
    Seq<AnnotationView<T>>,
> {
    Seq::new(sequences.len(), |i: int| sequences[i]@)
}

impl<T> View for LabelTask<T> {
    type V = Seq<Seq<AnnotationView<T>>>;

    open spec fn view(&self) -> Seq<Seq<AnnotationView<T>>> {
        sequence_views(self.sequences@)
    }
}

/// For each sequence in which `frame` lies at or after an annotation, in
/// order: the sequence's index and the annotations that the frame lies
/// between.
pub open spec fn brackets_of<T>(sequences: Seq<Seq<AnnotationView<T>>>, frame: usize) -> Seq<
    (usize, (usize, Option<usize>)),
>
    decreases sequences.len(),
{
    if sequences.len() == 0 {
        Seq::empty()
    } else {
        let rest = brackets_of(sequences.drop_last(), frame);
        match bracket(sequences.last(), frame) {
            Some(found) => rest.push(((sequences.len() - 1) as usize, found)),
            None => rest,
        }
    }
}

/// For each sequence that has an annotation for `frame`, in order: the
/// sequence's index and that annotation.
pub open spec fn all_interpolated_of<T>(sequences: Seq<Seq<AnnotationView<T>>>, frame: usize) -> Seq<
    (usize, InterpolatedView<T>),
>
    decreases sequences.len(),
{
    if sequences.len() == 0 {
        Seq::empty()
    } else {
        let rest = all_interpolated_of(sequences.drop_last(), frame);
        match interpolated_of(sequences.last(), frame) {
            Some(found) => rest.push(((sequences.len() - 1) as usize, found)),
            None => rest,
        }
    }
}

/// A list of found annotations as plain values.
pub open spec fn interpolated_views<T>(found: Seq<(usize, Interpolated<T>)>) -> Seq<
    (usize, InterpolatedView<T>),
> {
    Seq::new(found.len(), |i: int| (found[i].0, found[i].1@))
}

/// The sequences of a task that was loaded: as they were stored, or each
/// without its interpolated annotations.
pub open spec fn loaded<T>(stored: Seq<Seq<AnnotationView<T>>>, only_keyframes: bool) -> Seq<
    Seq<AnnotationView<T>>,
> {
    if only_keyframes {
        Seq::new(stored.len(), |i: int| keyframes_of(stored[i]))
    } else {
        stored
    }
}

/// The sequences without the one at `index`; all of them where there is
/// no such sequence.
pub open spec fn removed<T>(sequences: Seq<Seq<AnnotationView<T>>>, index: usize) -> Seq<
    Seq<AnnotationView<T>>,
> {
    if index < sequences.len() {
        sequences.remove(index as int)
    } else {
        sequences
    }
}

/// The index of the current sequence once `left` sequences are left.
pub open spec fn current_after_removal(current: usize, left: nat) -> int {
    if current < left {
        current as int
    } else if left > 0 {
        left - 1
    } else {
        0
    }
}

impl<T: Copy> LabelTask<T> {
    /// A task without sequences, with the labels to start from.
    pub fn new() -> (task: Self)
        ensures
            task@ == Seq::<Seq<AnnotationView<T>>>::empty(),
            task.current_sequence == 0,
            is_default_configs(task.configs),
            task.configs.startable(),
    {
        let task = LabelTask {
            sequences: Vec::new(),
            current_sequence: 0,
            configs: LabelConfigs::default(),
        };
        assert(task@ =~= Seq::<Seq<AnnotationView<T>>>::empty());
        task
    }

    /// True only if there is at least one sequence.
    pub fn has_sequences(&self) -> (any: bool)
        ensures
            any == (self@.len() > 0),
    {
        self.sequences.len() > 0
    }

    /// The annotation of `frame` in the current sequence, if the task has
    /// sequences.
    pub fn get_current_interpolated_annotation_for_frame(&self, frame: usize) -> (found: Option<
        Interpolated<T>,
    >)
        requires
            self@.len() > 0 ==> self.current_sequence < self@.len(),
        ensures
            self@.len() == 0 ==> found is None,
            self@.len() > 0 ==> found_view(found) == interpolated_of(
                self@[self.current_sequence as int],
                frame,
            ),
    {
        if self.has_sequences() {
            self.sequences[self.current_sequence].get_interpolated_annotation_for_frame(frame)
        } else {
            None
        }
    }

    /// For each sequence in which `frame` lies at or after an annotation:
    /// the sequence's index and the indices of the annotations that the
    /// frame lies between.
    pub fn get_all_annotations_for_frame(&self, frame: usize) -> (found: Vec<
        (usize, (usize, Option<usize>)),
    >)
        ensures
            found@ == brackets_of(self@, frame),
    {
        let mut found: Vec<(usize, (usize, Option<usize>))> = Vec::new();
        let mut i: usize = 0;
        while i < self.sequences.len()
            invariant
                i <= self.sequences@.len(),
                found@ == brackets_of(self@.take(i as int), frame),
            decreases self.sequences@.len() - i,
        {
            assert(self@.take(i as int + 1).drop_last() =~= self@.take(i as int));
            assert(self@.take(i as int + 1).last() == self.sequences@[i as int]@);
            match self.sequences[i].get_annotations_for_frame(frame) {
                Some(between) => {
                    found.push((i, between));
                },
                None => {},
            }
            i += 1;
        }
        assert(self@.take(self@.len() as int) =~= self@);
        found
    }

    /// For each sequence that has an annotation for `frame`: the sequence's
    /// index and that annotation.
    pub fn get_all_interpolated_annotations_for_frame(&self, frame: usize) -> (found: Vec<
        (usize, Interpolated<T>),
    >)
        ensures
            interpolated_views(found@) == all_interpolated_of(self@, frame),
    {
        let mut found: Vec<(usize, Interpolated<T>)> = Vec::new();
        let mut i: usize = 0;
        assert(interpolated_views(found@) =~= all_interpolated_of(self@.take(0), frame));
        while i < self.sequences.len()
            invariant
                i <= self.sequences@.len(),
                interpolated_views(found@) == all_interpolated_of(self@.take(i as int), frame),
            decreases self.sequences@.len() - i,
        {
            assert(self@.take(i as int + 1).drop_last() =~= self@.take(i as int));
            assert(self@.take(i as int + 1).last() == self.sequences@[i as int]@);
            match self.sequences[i].get_interpolated_annotation_for_frame(frame) {
                Some(annotation) => {
                    let ghost before = found@;
                    let ghost view = annotation@;
                    found.push((i, annotation));
                    assert(interpolated_views(found@) =~= interpolated_views(before).push(
                        (i, view),
                    ));
                },
                None => {},
            }
            i += 1;
        }
        assert(self@.take(self@.len() as int) =~= self@);
        found
    }

    /// Adds a new object: a sequence of its own that holds `annotation`.
    pub fn add_new_annotation_sequence(&mut self, annotation: Annotation<T>)
        ensures
            final(self)@ == old(self)@.push(seq![annotation@]),
            final(self).current_sequence == old(self).current_sequence,
            final(self).configs == old(self).configs,
    {
        let ghost start = self@;
        let mut sequence = AnnotationSequence::new();
        sequence.annotations.push(annotation);
        assert(sequence@ =~= seq![annotation@]);
        self.sequences.push(sequence);
        assert(self@ =~= start.push(seq![annotation@]));
    }

    /// Adds an empty sequence and makes it the current one.
    pub fn add_sequence(&mut self)
        ensures
            final(self)@ == old(self)@.push(Seq::<AnnotationView<T>>::empty()),
            final(self).current_sequence == old(self)@.len(),
            final(self).configs == old(self).configs,
    {
        let ghost start = self@;
        let sequence = AnnotationSequence::new();
        self.sequences.push(sequence);
        self.current_sequence = self.sequences.len() - 1;
        assert(self@ =~= start.push(Seq::<AnnotationView<T>>::empty()));
    }

    /// Removes the sequence at `index`, if there is one, and keeps the
    /// current sequence inside what is left: an index past the end becomes
    /// that of the last sequence, or 0 where none is left.
    pub fn remove_sequence(&mut self, index: usize)
        ensures
            final(self)@ == removed(old(self)@, index),
            final(self).current_sequence == current_after_removal(
                old(self).current_sequence,
                removed(old(self)@, index).len(),
            ),
            final(self).configs == old(self).configs,
    {
        let ghost start = self@;
        if index < self.sequences.len() {
            self.sequences.remove(index);
            assert(self@ =~= start.remove(index as int));
        }
        let left: usize = self.sequences.len();
        if self.current_sequence >= left {
            self.current_sequence = if left > 0 {
                left - 1
            } else {
                0
            };
        }
    }

    /// Draws `annotation` on `frame` in the current sequence, if the task
    /// has sequences.
    pub fn edit_current_annotation(&mut self, frame: usize, annotation: &Annotation<T>)
        requires
            old(self)@.len() > 0 ==> old(self).current_sequence < old(self)@.len(),
        ensures
            old(self)@.len() == 0 ==> final(self)@ == old(self)@,
            old(self)@.len() > 0 ==> final(self)@ == old(self)@.update(
                old(self).current_sequence as int,
                edited(old(self)@[old(self).current_sequence as int], frame, annotation@),
            ),
            final(self).current_sequence == old(self).current_sequence,
            final(self).configs == old(self).configs,
    {
        if self.sequences.len() == 0 {
            return ;
        }
        let ghost start = self@;
        let current: usize = self.current_sequence;
        let mut taken = self.sequences.remove(current);
        assert(taken@ == start[current as int]);
        taken.edit_annotation(frame, annotation);
        self.sequences.insert(current, taken);
        assert(self@ =~= start.update(
            current as int,
            edited(start[current as int], frame, annotation@),
        ));
    }

    /// Takes over sequences that were stored: as they are, or, where only
    /// keyframes are wanted, each without its interpolated annotations.
    pub fn set_sequences(&mut self, stored: Vec<AnnotationSequence<T>>, only_keyframes: bool)
        ensures
            final(self)@ == loaded(sequence_views(stored@), only_keyframes),
            final(self).current_sequence == old(self).current_sequence,
            final(self).configs == old(self).configs,
    {
        if !only_keyframes {
            self.sequences = stored;
            return ;
        }
        let mut kept: Vec<AnnotationSequence<T>> = Vec::new();
        let mut i: usize = 0;
        while i < stored.len()
            invariant
                i <= stored@.len(),
                kept@.len() == i,
                forall|j: int|
                    0 <= j < i ==> (#[trigger] kept@[j])@ == keyframes_of(stored@[j]@),
            decreases stored@.len() - i,
        {
            kept.push(stored[i].keyframes());
            i += 1;
        }
        self.sequences = kept;
        assert(self@ =~= loaded(sequence_views(stored@), only_keyframes));
    }
}

} // verus!
