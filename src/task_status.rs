use vstd::prelude::*;

verus! {

/// Lifecycle state of a persisted task record.
#[derive(Debug, Clone, Copy, PartialEq, Eq, Structural)]
pub enum TaskStatus {
    Pending,
    Processing,
    Completed,
    Failed,
}

/// The stable upper-case spelling used on the wire and in store predicates.
pub open spec fn status_text(s: TaskStatus) -> Seq<char> {
    match s {
        TaskStatus::Pending => seq!['P', 'E', 'N', 'D', 'I', 'N', 'G'],
        TaskStatus::Processing => seq!['P', 'R', 'O', 'C', 'E', 'S', 'S', 'I', 'N', 'G'],
        TaskStatus::Completed => seq!['C', 'O', 'M', 'P', 'L', 'E', 'T', 'E', 'D'],
        TaskStatus::Failed => seq!['F', 'A', 'I', 'L', 'E', 'D'],
    }
}

/// A terminal state admits no further change.
pub open spec fn is_terminal_status(s: TaskStatus) -> bool {
    s == TaskStatus::Completed || s == TaskStatus::Failed
}

impl TaskStatus {
    pub fn as_str(&self) -> (r: &'static str)
        ensures
            r@ == status_text(*self),
    {
        match self {
            TaskStatus::Pending => {
                proof {
                    reveal_strlit("PENDING");
                }
                "PENDING"
            },
            TaskStatus::Processing => {
                proof {
                    reveal_strlit("PROCESSING");
                }
                "PROCESSING"
            },
            TaskStatus::Completed => {
                proof {
                    reveal_strlit("COMPLETED");
                }
                "COMPLETED"
            },
            TaskStatus::Failed => {
                proof {
                    reveal_strlit("FAILED");
                }
                "FAILED"
            },
        }
    }
}

} // verus!
