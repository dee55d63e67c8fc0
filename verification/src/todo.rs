//! The to-do list: an append-only sequence of items with a priority flag,
//! partitioned into high- and low-priority sub-lists at render time with
//! insertion order preserved within each partition, and its display text.
//!
//! As with the calendar, reloading the list from the persisted file is the
//! driver's explicit step, never hidden inside a query.

use vstd::prelude::*;
use vstd::string::*;

use crate::render::{decimal_string, spec_decimal};

verus! {

/// One to-do item: a priority flag and a name. No date association.
#[derive(Debug)]
pub struct ToDo {
    pub high_prio: bool,
    pub todo_name: String,
}

impl ToDo {
    pub fn new(high_prio: bool, todo_name: String) -> (r: ToDo)
        ensures
            r.high_prio == high_prio,
            r.todo_name == todo_name,
    {
        ToDo { high_prio, todo_name }
    }
}

impl Clone for ToDo {
    fn clone(&self) -> (r: Self)
        ensures
            r == *self,
    {
        ToDo { high_prio: self.high_prio, todo_name: self.todo_name.clone() }
    }
}

/// The append-only list of to-do items.
#[derive(Debug)]
pub struct ToDoList {
    pub all_todos: Vec<ToDo>,
}

impl Clone for ToDoList {
    fn clone(&self) -> (r: Self)
        ensures
            r.all_todos@ == self.all_todos@,
    {
        ToDoList { all_todos: clone_todo_vec(&self.all_todos) }
    }
}

fn clone_todo_vec(v: &Vec<ToDo>) -> (r: Vec<ToDo>)
    ensures
        r@ =~= v@,
{
    let mut r: Vec<ToDo> = Vec::new();
    let mut i: usize = 0;
    while i < v.len()
        invariant
            i <= v@.len(),
            r@ =~= v@.take(i as int),
        decreases v@.len() - i,
    {
        r.push(v[i].clone());
        proof {
            assert(r@ =~= v@.take(i + 1));
        }
        i = i + 1;
    }
    proof {
        assert(v@.take(v@.len() as int) =~= v@);
    }
    r
}

/// The names of `todos`, one line each, in order.
pub open spec fn spec_todo_names(todos: Seq<ToDo>) -> Seq<char>
    decreases todos.len(),
{
    if todos.len() == 0 {
        Seq::empty()
    } else {
        spec_todo_names(todos.drop_last()) + todos.last().todo_name@ + seq!['\n']
    }
}

/// The to-do panel: a heading with the count and the names for each
/// non-empty partition, high priority first, or a message when the list is
/// empty.
pub open spec fn spec_todo_text(todos: Seq<ToDo>) -> Seq<char> {
    let high = todos.filter(|t: ToDo| t.high_prio);
    let low = todos.filter(|t: ToDo| !t.high_prio);
    if high.len() == 0 && low.len() == 0 {
        "You do not have any to-do items!"@
    } else {
        (if high.len() > 0 {
            "High Priority:  "@ + spec_decimal(high.len() as int) + seq!['\n'] + spec_todo_names(
                high,
            ) + seq!['\n']
        } else {
            Seq::empty()
        }) + (if low.len() > 0 {
            "Low Priority:  "@ + spec_decimal(low.len() as int) + seq!['\n'] + spec_todo_names(low)
        } else {
            Seq::empty()
        })
    }
}

impl ToDoList {
    /// An empty list.
    pub fn new() -> (r: ToDoList)
        ensures
            r.all_todos@.len() == 0,
    {
        ToDoList { all_todos: Vec::new() }
    }

    pub fn get_all_todo_items(&self) -> (r: Vec<ToDo>)
        ensures
            r@ == self.all_todos@,
    {
        clone_todo_vec(&self.all_todos)
    }

    /// Appends an item: no de-duplication, no validation.
    pub fn add_todo_to_list(&mut self, todo_item: ToDo)
        ensures
            final(self).all_todos@ == old(self).all_todos@.push(todo_item),
    {
        self.all_todos.push(todo_item);
    }

    /// Partitions the list into its high-priority and low-priority items,
    /// in that order, preserving insertion order within each partition.
    pub fn get_todos_sorted_by_prio(&self) -> (r: Vec<Vec<ToDo>>)
        ensures
            r@.len() == 2,
            r@[0]@ == self.all_todos@.filter(|t: ToDo| t.high_prio),
            r@[1]@ == self.all_todos@.filter(|t: ToDo| !t.high_prio),
    {
        let mut high: Vec<ToDo> = Vec::new();
        let mut low: Vec<ToDo> = Vec::new();
        let mut i: usize = 0;
        proof {
            reveal(Seq::filter);
        }
        while i < self.all_todos.len()
            invariant
                i <= self.all_todos@.len(),
                high@ == self.all_todos@.take(i as int).filter(|t: ToDo| t.high_prio),
                low@ == self.all_todos@.take(i as int).filter(|t: ToDo| !t.high_prio),
            decreases self.all_todos@.len() - i,
        {
            let item = &self.all_todos[i];
            proof {
                reveal(Seq::filter);
                assert(self.all_todos@.take(i + 1).drop_last() =~= self.all_todos@.take(i as int));
                assert(self.all_todos@.take(i + 1).last() == self.all_todos@[i as int]);
            }
            if item.high_prio {
                high.push(item.clone());
            } else {
                low.push(item.clone());
            }
            i = i + 1;
        }
        proof {
            assert(self.all_todos@.take(self.all_todos@.len() as int) =~= self.all_todos@);
        }
        let mut r: Vec<Vec<ToDo>> = Vec::new();
        r.push(high);
        r.push(low);
        r
    }

    /// The to-do panel text; see `spec_todo_text` for its exact shape.
    pub fn generate_todo_text(&self) -> (r: String)
        ensures
            r@ == spec_todo_text(self.all_todos@),
    {
        let sorted = self.get_todos_sorted_by_prio();
        let high = &sorted[0];
        let low = &sorted[1];
        let mut out = String::new();
        if high.len() > 0 {
            out.append("High Priority:  ");
            let count = decimal_string(high.len() as u64);
            out.append(count.as_str());
            out.append("\n");
            proof {
                reveal_strlit("\n");
                assert(out@ =~= "High Priority:  "@ + spec_decimal(high@.len() as int)
                    + seq!['\n'] + spec_todo_names(high@.take(0)));
            }
            let mut i: usize = 0;
            while i < high.len()
                invariant
                    i <= high@.len(),
                    out@ == "High Priority:  "@ + spec_decimal(high@.len() as int) + seq!['\n']
                        + spec_todo_names(high@.take(i as int)),
                decreases high@.len() - i,
            {
                out.append(high[i].todo_name.as_str());
                out.append("\n");
                proof {
                    reveal_strlit("\n");
                    assert(high@.take(i + 1).drop_last() =~= high@.take(i as int));
                    assert(out@ =~= "High Priority:  "@ + spec_decimal(high@.len() as int)
                        + seq!['\n'] + spec_todo_names(high@.take(i + 1)));
                }
                i = i + 1;
            }
            out.append("\n");
            proof {
                reveal_strlit("\n");
                assert(high@.take(high@.len() as int) =~= high@);
                assert(out@ =~= "High Priority:  "@ + spec_decimal(high@.len() as int)
                    + seq!['\n'] + spec_todo_names(high@) + seq!['\n']);
            }
        }
        let ghost high_part = out@;
        if low.len() > 0 {
            out.append("Low Priority:  ");
            let count = decimal_string(low.len() as u64);
            out.append(count.as_str());
            out.append("\n");
            proof {
                reveal_strlit("\n");
                assert(out@ =~= high_part + ("Low Priority:  "@ + spec_decimal(low@.len() as int)
                    + seq!['\n'] + spec_todo_names(low@.take(0))));
            }
            let mut i: usize = 0;
            while i < low.len()
                invariant
                    i <= low@.len(),
                    out@ == high_part + ("Low Priority:  "@ + spec_decimal(low@.len() as int)
                        + seq!['\n'] + spec_todo_names(low@.take(i as int))),
                decreases low@.len() - i,
            {
                out.append(low[i].todo_name.as_str());
                out.append("\n");
                proof {
                    reveal_strlit("\n");
                    assert(low@.take(i + 1).drop_last() =~= low@.take(i as int));
                    assert(out@ =~= high_part + ("Low Priority:  "@ + spec_decimal(
                        low@.len() as int,
                    ) + seq!['\n'] + spec_todo_names(low@.take(i + 1))));
                }
                i = i + 1;
            }
            proof {
                assert(low@.take(low@.len() as int) =~= low@);
            }
        }
        if high.len() == 0 && low.len() == 0 {
            out.append("You do not have any to-do items!");
        }
        proof {
            assert(out@ =~= spec_todo_text(self.all_todos@));
        }
        out
    }
}

} // verus!
