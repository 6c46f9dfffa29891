//! The exercise registry: an ordered catalog of exercises, a session cursor,
//! and per-exercise hint lists.
//!
//! Each exercise record carries a stable name, a display name, the module
//! path of its backing source file, and an in-memory completion flag.  The
//! flag is changed in exactly two ways: a rescan derives it from the backing
//! file's content (absence of the sentinel marker means complete), and the
//! session controller forces it to `true` when a test run succeeds.  Reading
//! files is the embedding program's job; rescans here take the file content,
//! or `None` when the file was unreadable, in which case the prior value is
//! kept.

use vstd::prelude::*;
use vstd::std_specs::vec::vec_index_mut;

use crate::text::{marks_incomplete, source_path_spec, source_file_path, str_contains, str_eq};

verus! {

/// One unit of practice material.
pub struct Exercise {
    /// Stable key, unique within a catalog.
    pub name: String,
    /// Human-readable title.
    pub display_name: String,
    /// Module path of the backing source file, `::`-separated.
    pub module_name: String,
    /// Whether the exercise currently counts as complete.
    pub is_complete: bool,
}

impl Exercise {
    /// The record after a rescan against the given file content:
    /// readable content decides the flag by the sentinel marker, an
    /// unreadable file (`None`) keeps the prior value.
    pub open spec fn rescanned(self, content: Option<Seq<char>>) -> Exercise {
        match content {
            Option::Some(text) => Exercise {
                name: self.name,
                display_name: self.display_name,
                module_name: self.module_name,
                is_complete: !marks_incomplete(text),
            },
            Option::None => self,
        }
    }

    /// The record after a full re-check: complete exactly when its tests
    /// passed and a rescan against `content` also finds it complete.
    pub open spec fn checked(self, passed: bool, content: Option<Seq<char>>) -> Exercise {
        Exercise {
            name: self.name,
            display_name: self.display_name,
            module_name: self.module_name,
            is_complete: passed && self.rescanned(content).is_complete,
        }
    }

    /// The record with the completion flag forced on, all else unchanged.
    pub open spec fn marked_complete(self) -> Exercise {
        Exercise {
            name: self.name,
            display_name: self.display_name,
            module_name: self.module_name,
            is_complete: true,
        }
    }

    /// A fresh record, not yet complete; completion comes from a later
    /// rescan or from a successful test run.
    pub fn new(name: &str, display_name: &str, module_name: &str) -> (e: Exercise)
        ensures
            e.name@ == name@,
            e.display_name@ == display_name@,
            e.module_name@ == module_name@,
            !e.is_complete,
    {
        Exercise {
            name: String::from_str(name),
            display_name: String::from_str(display_name),
            module_name: String::from_str(module_name),
            is_complete: false,
        }
    }

    /// The one-character status cell used by the list view.
    pub fn status_marker(&self) -> (m: &str)
        ensures
            m@ == if self.is_complete { "O"@ } else { "X"@ },
    {
        if self.is_complete {
            "O"
        } else {
            "X"
        }
    }

    /// Apply a rescan result: `content` is the backing file's text, or
    /// `None` when it could not be read, which keeps the prior flag.
    pub fn refresh_status(&mut self, content: Option<&String>)
        ensures
            *final(self) == old(self).rescanned(content.deep_view()),
    {
        match content {
            Option::Some(text) => {
                let marked = str_contains(text.as_str(), "I AM NOT DONE");
                self.is_complete = !marked;
            },
            Option::None => {},
        }
    }

    /// The path of the backing source file, derived from the module path.
    pub fn source_path(&self) -> (p: String)
        ensures
            p@ == source_path_spec(self.module_name@),
    {
        source_file_path(self.module_name.as_str())
    }
}

/// The position of the first record whose completion flag is off, in
/// catalog order; `None` when every record is complete.
pub open spec fn first_incomplete_index(s: Seq<Exercise>) -> Option<int>
    decreases s.len(),
{
    if s.len() == 0 {
        Option::None
    } else if !s[0].is_complete {
        Option::Some(0)
    } else {
        match first_incomplete_index(s.skip(1)) {
            Option::Some(i) => Option::Some(i + 1),
            Option::None => Option::None,
        }
    }
}

/// Where the cursor lands after seeking the first incomplete record:
/// that record's index, or 0 when all are complete.
pub open spec fn first_incomplete_or_zero(s: Seq<Exercise>) -> int {
    match first_incomplete_index(s) {
        Option::Some(i) => i,
        Option::None => 0,
    }
}

/// `first_incomplete_index` names the lowest index whose record is
/// incomplete, and is `None` exactly when every record is complete.
pub proof fn lemma_first_incomplete_index_correct(s: Seq<Exercise>)
    ensures
        match first_incomplete_index(s) {
            Option::Some(i) => 0 <= i < s.len() && !s[i].is_complete && (forall|j: int|
                0 <= j < i ==> s[j].is_complete),
            Option::None => forall|j: int| 0 <= j < s.len() ==> s[j].is_complete,
        },
    decreases s.len(),
{
    if s.len() == 0 {
    } else if !s[0].is_complete {
    } else {
        lemma_first_incomplete_index_correct(s.skip(1));
        match first_incomplete_index(s.skip(1)) {
            Option::Some(i) => {
                assert(s.skip(1)[i] == s[i + 1]);
                assert forall|j: int| 0 <= j < i + 1 implies s[j].is_complete by {
                    if j > 0 {
                        assert(s.skip(1)[j - 1] == s[j]);
                    }
                }
            },
            Option::None => {
                assert forall|j: int| 0 <= j < s.len() implies s[j].is_complete by {
                    if j > 0 {
                        assert(s.skip(1)[j - 1] == s[j]);
                    }
                }
            },
        }
    }
}

/// How many records are complete.
pub open spec fn count_complete(s: Seq<Exercise>) -> nat
    decreases s.len(),
{
    if s.len() == 0 {
        0
    } else {
        count_complete(s.drop_last()) + if s.last().is_complete {
            1nat
        } else {
            0nat
        }
    }
}

/// The position of the first hint entry stored under `name`, if any.
pub open spec fn hints_lookup(h: Seq<(String, Vec<String>)>, name: Seq<char>) -> Option<int>
    decreases h.len(),
{
    if h.len() == 0 {
        Option::None
    } else if h[0].0@ == name {
        Option::Some(0)
    } else {
        match hints_lookup(h.skip(1), name) {
            Option::Some(i) => Option::Some(i + 1),
            Option::None => Option::None,
        }
    }
}

/// `hints_lookup` names the lowest index stored under `name`, and is
/// `None` exactly when no entry carries that key.
pub proof fn lemma_hints_lookup_correct(h: Seq<(String, Vec<String>)>, name: Seq<char>)
    ensures
        match hints_lookup(h, name) {
            Option::Some(i) => 0 <= i < h.len() && h[i].0@ == name && (forall|k: int|
                0 <= k < i ==> h[k].0@ != name),
            Option::None => forall|k: int| 0 <= k < h.len() ==> h[k].0@ != name,
        },
    decreases h.len(),
{
    if h.len() == 0 {
    } else if h[0].0@ == name {
    } else {
        lemma_hints_lookup_correct(h.skip(1), name);
        match hints_lookup(h.skip(1), name) {
            Option::Some(i) => {
                assert(h.skip(1)[i] == h[i + 1]);
                assert forall|k: int| 0 <= k < i + 1 implies h[k].0@ != name by {
                    if k > 0 {
                        assert(h.skip(1)[k - 1] == h[k]);
                    }
                }
            },
            Option::None => {
                assert forall|k: int| 0 <= k < h.len() implies h[k].0@ != name by {
                    if k > 0 {
                        assert(h.skip(1)[k - 1] == h[k]);
                    }
                }
            },
        }
    }
}

/// The ordered catalog, the session cursor, and the hint store.
pub struct ExerciseManager {
    /// Catalog order is fixed and defines navigation order.
    pub exercises: Vec<Exercise>,
    /// Index of the active exercise; clamped to the catalog.
    pub current_index: usize,
    /// Hint lists keyed by exercise name; keys are unique.
    pub hints: Vec<(String, Vec<String>)>,
}

impl ExerciseManager {
    /// The cursor is valid: inside the catalog when it is non-empty,
    /// pinned to 0 when it is empty.
    pub open spec fn wf(&self) -> bool {
        if self.exercises@.len() == 0 {
            self.current_index == 0
        } else {
            (self.current_index as int) < self.exercises@.len()
        }
    }

    /// The built-in catalog: four exercises, two hints each, all awaiting
    /// a first rescan, with the cursor on the first record.
    pub fn new() -> (m: ExerciseManager)
        ensures
            m.wf(),
            m.current_index == 0,
            m.exercises@.len() == 4,
            m.hints@.len() == 4,
            forall|i: int| 0 <= i < 4 ==> !m.exercises@[i].is_complete,
            forall|i: int| #![auto] 0 <= i < 4 ==> m.hints@[i].0@ == m.exercises@[i].name@,
            forall|i: int| #![auto] 0 <= i < 4 ==> m.hints@[i].1@.len() == 2,
            m.exercises@[0].name@ == "two_sum/two_sum_v1"@,
            m.exercises@[0].display_name@ == "Two Sum (Classic LeetCode Problem)"@,
            m.exercises@[0].module_name@ == "exercises::two_sum::two_sum_v1"@,
            m.exercises@[1].name@ == "two_sum/warehouse_weight"@,
            m.exercises@[1].display_name@ == "Warehouse Box Weight Matcher"@,
            m.exercises@[1].module_name@ == "exercises::two_sum::warehouse_weight"@,
            m.exercises@[2].name@ == "two_sum/construction_bars"@,
            m.exercises@[2].display_name@ == "Construction Bar Length Finder"@,
            m.exercises@[2].module_name@ == "exercises::two_sum::construction_bars"@,
            m.exercises@[3].name@ == "two_sum/recipe_ingredients"@,
            m.exercises@[3].display_name@ == "Recipe Ingredient Calorie Counter"@,
            m.exercises@[3].module_name@ == "exercises::two_sum::recipe_ingredients"@,
    {
        let mut m = ExerciseManager { exercises: Vec::new(), current_index: 0, hints: Vec::new() };

        let mut h1: Vec<String> = Vec::new();
        h1.push(
            String::from_str(
                "Try using a data structure to store values you've seen while iterating.",
            ),
        );
        h1.push(
            String::from_str(
                "For each number, calculate what value would complement it to reach the target.",
            ),
        );
        m.add_exercise(
            "two_sum/two_sum_v1",
            "Two Sum (Classic LeetCode Problem)",
            "exercises::two_sum::two_sum_v1",
            h1,
        );

        let mut h2: Vec<String> = Vec::new();
        h2.push(
            String::from_str("This problem is structurally similar to the classic Two Sum problem."),
        );
        h2.push(
            String::from_str(
                "Think about what data structure could help you find matching boxes efficiently.",
            ),
        );
        proof {
            reveal_strlit("two_sum/two_sum_v1");
            reveal_strlit("two_sum/warehouse_weight");
            assert(m.hints@.len() == 1);
            assert(m.hints@[0].0@ == "two_sum/two_sum_v1"@);
            assert("two_sum/two_sum_v1"@.len() != "two_sum/warehouse_weight"@.len());
            lemma_hints_lookup_correct(m.hints@, "two_sum/warehouse_weight"@);
            assert(hints_lookup(m.hints@, "two_sum/warehouse_weight"@) is None);
        }
        m.add_exercise(
            "two_sum/warehouse_weight",
            "Warehouse Box Weight Matcher",
            "exercises::two_sum::warehouse_weight",
            h2,
        );

        let mut h3: Vec<String> = Vec::new();
        h3.push(
            String::from_str("For each bar, what other length would you need to reach the target?"),
        );
        h3.push(
            String::from_str("How can you quickly determine if that complementary length exists?"),
        );
        proof {
            reveal_strlit("two_sum/two_sum_v1");
            reveal_strlit("two_sum/warehouse_weight");
            reveal_strlit("two_sum/construction_bars");
            assert(m.hints@.len() == 2);
            assert(m.hints@[0].0@ == "two_sum/two_sum_v1"@);
            assert(m.hints@[1].0@ == "two_sum/warehouse_weight"@);
            assert("two_sum/two_sum_v1"@.len() != "two_sum/construction_bars"@.len());
            assert("two_sum/warehouse_weight"@.len() != "two_sum/construction_bars"@.len());
            lemma_hints_lookup_correct(m.hints@, "two_sum/construction_bars"@);
            assert(hints_lookup(m.hints@, "two_sum/construction_bars"@) is None);
        }
        m.add_exercise(
            "two_sum/construction_bars",
            "Construction Bar Length Finder",
            "exercises::two_sum::construction_bars",
            h3,
        );

        let mut h4: Vec<String> = Vec::new();
        h4.push(
            String::from_str("Think about the target calories minus each ingredient's calories."),
        );
        h4.push(
            String::from_str("Is there a way to store ingredient information for quick lookups?"),
        );
        proof {
            reveal_strlit("two_sum/two_sum_v1");
            reveal_strlit("two_sum/warehouse_weight");
            reveal_strlit("two_sum/construction_bars");
            reveal_strlit("two_sum/recipe_ingredients");
            assert(m.hints@.len() == 3);
            assert(m.hints@[0].0@ == "two_sum/two_sum_v1"@);
            assert(m.hints@[1].0@ == "two_sum/warehouse_weight"@);
            assert(m.hints@[2].0@ == "two_sum/construction_bars"@);
            assert("two_sum/two_sum_v1"@.len() != "two_sum/recipe_ingredients"@.len());
            assert("two_sum/warehouse_weight"@.len() != "two_sum/recipe_ingredients"@.len());
            assert("two_sum/construction_bars"@.len() != "two_sum/recipe_ingredients"@.len());
            lemma_hints_lookup_correct(m.hints@, "two_sum/recipe_ingredients"@);
            assert(hints_lookup(m.hints@, "two_sum/recipe_ingredients"@) is None);
        }
        m.add_exercise(
            "two_sum/recipe_ingredients",
            "Recipe Ingredient Calorie Counter",
            "exercises::two_sum::recipe_ingredients",
            h4,
        );

        m.set_to_first_incomplete();
        m
    }

    /// Append a record to the catalog and store its hints under its name;
    /// hints stored earlier under the same name are replaced.
    pub fn add_exercise(
        &mut self,
        name: &str,
        display_name: &str,
        module_name: &str,
        hints: Vec<String>,
    )
        ensures
            final(self).current_index == old(self).current_index,
            final(self).exercises@ == old(self).exercises@.push(final(self).exercises@.last()),
            final(self).exercises@.last().name@ == name@,
            final(self).exercises@.last().display_name@ == display_name@,
            final(self).exercises@.last().module_name@ == module_name@,
            !final(self).exercises@.last().is_complete,
            match hints_lookup(old(self).hints@, name@) {
                Option::Some(i) => final(self).hints@ == old(self).hints@.update(
                    i,
                    final(self).hints@[i],
                ) && final(self).hints@[i].0 == old(self).hints@[i].0 && final(self).hints@[i].1
                    == hints,
                Option::None => final(self).hints@ == old(self).hints@.push(
                    final(self).hints@.last(),
                ) && final(self).hints@.last().0@ == name@ && final(self).hints@.last().1 == hints,
            },
            old(self).wf() ==> final(self).wf(),
    {
        self.exercises.push(Exercise::new(name, display_name, module_name));

        let mut i: usize = 0;
        let mut found = false;
        while i < self.hints.len()
            invariant
                i <= self.hints@.len(),
                forall|k: int| 0 <= k < i ==> self.hints@[k].0@ != name@,
                found ==> i < self.hints@.len() && self.hints@[i as int].0@ == name@,
            decreases self.hints@.len() - i,
        {
            if str_eq(self.hints[i].0.as_str(), name) {
                found = true;
                break ;
            }
            i = i + 1;
        }
        proof {
            lemma_hints_lookup_correct(self.hints@, name@);
            if found {
                match hints_lookup(self.hints@, name@) {
                    Option::Some(i0) => {
                        assert(i0 == i);
                    },
                    Option::None => {
                        assert(false);
                    },
                }
            }
        }
        if found {
            let entry = vec_index_mut(&mut self.hints, i);
            entry.1 = hints;
        } else {
            self.hints.push((String::from_str(name), hints));
        }
    }

    /// The catalog, in fixed order.
    pub fn get_exercises(&self) -> (r: &Vec<Exercise>)
        ensures
            r == &self.exercises,
    {
        &self.exercises
    }

    /// The record under the cursor, or `None` for an empty catalog.
    pub fn get_current_exercise(&self) -> (r: Option<&Exercise>)
        ensures
            (self.current_index as int) < self.exercises@.len() ==> (r matches Option::Some(e)
                && *e == self.exercises@[self.current_index as int]),
            (self.current_index as int) >= self.exercises@.len() ==> r is None,
    {
        if self.current_index < self.exercises.len() {
            Option::Some(&self.exercises[self.current_index])
        } else {
            Option::None
        }
    }

    /// Mutable access to the record under the cursor, or `None` for an
    /// empty catalog.
    pub fn get_current_exercise_mut(&mut self) -> (r: Option<&mut Exercise>)
        ensures
            (old(self).current_index as int) < old(self).exercises@.len() ==> {
                &&& r is Some
                &&& *r.unwrap() == old(self).exercises@[old(self).current_index as int]
                &&& final(self).exercises@ == old(self).exercises@.update(
                    old(self).current_index as int,
                    *final(r.unwrap()),
                )
                &&& final(self).current_index == old(self).current_index
                &&& final(self).hints == old(self).hints
            },
            (old(self).current_index as int) >= old(self).exercises@.len() ==> r is None
                && *final(self) == *old(self),
    {
        if self.current_index < self.exercises.len() {
            Option::Some(vec_index_mut(&mut self.exercises, self.current_index))
        } else {
            Option::None
        }
    }

    /// The hints stored under the given exercise name, if any.
    pub fn get_exercise_hints(&self, exercise_name: &str) -> (r: Option<&Vec<String>>)
        ensures
            match hints_lookup(self.hints@, exercise_name@) {
                Option::Some(i) => r matches Option::Some(v) && *v == self.hints@[i].1,
                Option::None => r is None,
            },
    {
        let mut i: usize = 0;
        while i < self.hints.len()
            invariant
                i <= self.hints@.len(),
                forall|k: int| 0 <= k < i ==> self.hints@[k].0@ != exercise_name@,
            decreases self.hints@.len() - i,
        {
            if str_eq(self.hints[i].0.as_str(), exercise_name) {
                proof {
                    lemma_hints_lookup_correct(self.hints@, exercise_name@);
                }
                return Option::Some(&self.hints[i].1);
            }
            i = i + 1;
        }
        proof {
            lemma_hints_lookup_correct(self.hints@, exercise_name@);
        }
        Option::None
    }

    /// The hints of the record under the cursor, if both exist.
    pub fn get_current_hints(&self) -> (r: Option<&Vec<String>>)
        ensures
            (self.current_index as int) < self.exercises@.len() ==> match hints_lookup(
                self.hints@,
                self.exercises@[self.current_index as int].name@,
            ) {
                Option::Some(i) => r matches Option::Some(v) && *v == self.hints@[i].1,
                Option::None => r is None,
            },
            (self.current_index as int) >= self.exercises@.len() ==> r is None,
    {
        match self.get_current_exercise() {
            Option::Some(e) => self.get_exercise_hints(e.name.as_str()),
            Option::None => Option::None,
        }
    }

    /// Seek the cursor to the first incomplete record, or to 0 when all
    /// records are complete.
    pub fn set_to_first_incomplete(&mut self)
        ensures
            final(self).exercises == old(self).exercises,
            final(self).hints == old(self).hints,
            final(self).current_index as int == first_incomplete_or_zero(old(self).exercises@),
            final(self).wf(),
    {
        let mut i: usize = 0;
        while i < self.exercises.len()
            invariant
                self.exercises == old(self).exercises,
                self.hints == old(self).hints,
                self.current_index == old(self).current_index,
                i <= self.exercises@.len(),
                forall|j: int| 0 <= j < i ==> self.exercises@[j].is_complete,
            decreases self.exercises@.len() - i,
        {
            if !self.exercises[i].is_complete {
                proof {
                    lemma_first_incomplete_index_correct(self.exercises@);
                    match first_incomplete_index(self.exercises@) {
                        Option::Some(i0) => {
                            assert(i0 == i as int);
                        },
                        Option::None => {
                            assert(false);
                        },
                    }
                }
                self.current_index = i;
                return ;
            }
            i = i + 1;
        }
        proof {
            lemma_first_incomplete_index_correct(self.exercises@);
            match first_incomplete_index(self.exercises@) {
                Option::Some(i0) => {
                    assert(false);
                },
                Option::None => {},
            }
        }
        self.current_index = 0;
    }

    /// Step the cursor forward when a next record exists; reports whether
    /// it moved.
    pub fn move_to_next_exercise(&mut self) -> (moved: bool)
        requires
            old(self).wf(),
        ensures
            final(self).exercises == old(self).exercises,
            final(self).hints == old(self).hints,
            moved == (old(self).current_index + 1 < old(self).exercises@.len()),
            final(self).current_index == if moved {
                old(self).current_index + 1
            } else {
                old(self).current_index as int
            },
            final(self).wf(),
    {
        let len = self.exercises.len();
        if self.current_index + 1 < len {
            self.current_index = self.current_index + 1;
            true
        } else {
            false
        }
    }

    /// Rescan every record against the given file contents, in catalog
    /// order; entry `i` holds the content of record `i`'s backing file,
    /// or `None` where it was unreadable.
    pub fn refresh_all_statuses(&mut self, contents: &Vec<Option<String>>)
        requires
            contents@.len() == old(self).exercises@.len(),
        ensures
            final(self).exercises@.len() == old(self).exercises@.len(),
            forall|i: int| #![auto]
                0 <= i < old(self).exercises@.len() ==> final(self).exercises@[i] == old(
                    self,
                ).exercises@[i].rescanned(contents.deep_view()[i]),
            final(self).current_index == old(self).current_index,
            final(self).hints == old(self).hints,
            old(self).wf() ==> final(self).wf(),
    {
        let ghost orig = self.exercises@;
        let mut i: usize = 0;
        while i < self.exercises.len()
            invariant
                contents@.len() == orig.len(),
                self.exercises@.len() == orig.len(),
                self.current_index == old(self).current_index,
                self.hints == old(self).hints,
                i <= orig.len(),
                forall|k: int| #![auto]
                    0 <= k < i ==> self.exercises@[k] == orig[k].rescanned(contents.deep_view()[k]),
                forall|k: int| i <= k < orig.len() ==> self.exercises@[k] == orig[k],
            decreases orig.len() - i,
        {
            let content = contents[i].as_ref();
            let e = vec_index_mut(&mut self.exercises, i);
            e.refresh_status(content);
            i = i + 1;
        }
    }

    /// Whether every record in the catalog is complete.
    pub fn all_completed(&self) -> (r: bool)
        ensures
            r == (forall|i: int| 0 <= i < self.exercises@.len() ==> self.exercises@[i].is_complete),
    {
        let mut i: usize = 0;
        while i < self.exercises.len()
            invariant
                i <= self.exercises@.len(),
                forall|j: int| 0 <= j < i ==> self.exercises@[j].is_complete,
            decreases self.exercises@.len() - i,
        {
            if !self.exercises[i].is_complete {
                return false;
            }
            i = i + 1;
        }
        true
    }

    /// How many records in the catalog are complete.
    pub fn count_completed(&self) -> (n: usize)
        ensures
            n == count_complete(self.exercises@),
    {
        let mut n: usize = 0;
        let mut i: usize = 0;
        while i < self.exercises.len()
            invariant
                i <= self.exercises@.len(),
                n == count_complete(self.exercises@.take(i as int)),
                n <= i,
            decreases self.exercises@.len() - i,
        {
            proof {
                assert(self.exercises@.take(i + 1).drop_last() =~= self.exercises@.take(i as int));
                assert(self.exercises@.take(i + 1).last() == self.exercises@[i as int]);
            }
            if self.exercises[i].is_complete {
                n = n + 1;
            }
            i = i + 1;
        }
        proof {
            assert(self.exercises@.take(self.exercises@.len() as int) =~= self.exercises@);
        }
        n
    }
}

impl Default for ExerciseManager {
    /// An empty catalog with the cursor pinned to 0.
    fn default() -> (m: ExerciseManager)
        ensures
            m.exercises@.len() == 0,
            m.hints@.len() == 0,
            m.current_index == 0,
            m.wf(),
    {
        ExerciseManager { exercises: Vec::new(), current_index: 0, hints: Vec::new() }
    }
}

} // verus!
