//! Tab rows: one button per page, the active one taller, with an optional
//! unread badge on the notifications tab.

use vstd::prelude::*;
use vstd::string::StringExecFns;
use crate::text::TextType;

verus! {

/// Height of the active tab button, in logical units.
pub const TAB_HEIGHT_ACTIVE: u32 = 35;

/// Height of an inactive tab button, in logical units.
pub const TAB_HEIGHT_INACTIVE: u32 = 30;

/// Height of the unread badge, in logical units.
pub const BADGE_HEIGHT: u32 = 20;

/// The decimal digit `d` as a character.
pub open spec fn spec_digit(d: nat) -> char {
    if d == 0 {
        '0'
    } else if d == 1 {
        '1'
    } else if d == 2 {
        '2'
    } else if d == 3 {
        '3'
    } else if d == 4 {
        '4'
    } else if d == 5 {
        '5'
    } else if d == 6 {
        '6'
    } else if d == 7 {
        '7'
    } else if d == 8 {
        '8'
    } else {
        '9'
    }
}

/// The decimal digits of `n`, most significant first.
pub open spec fn spec_decimal(n: nat) -> Seq<char>
    decreases n,
{
    if n < 10 {
        seq![spec_digit(n)]
    } else {
        spec_decimal(n / 10).push(spec_digit(n % 10))
    }
}

/// Appends the single decimal digit `d` to `s`.
fn push_digit(s: &mut String, d: usize)
    requires
        d < 10,
    ensures
        final(s)@ == old(s)@ + seq![spec_digit(d as nat)],
{
    if d == 0 {
        s.append("0");
        proof {
            reveal_strlit("0");
            assert("0"@ =~= seq![spec_digit(0)]);
        }
    } else if d == 1 {
        s.append("1");
        proof {
            reveal_strlit("1");
            assert("1"@ =~= seq![spec_digit(1)]);
        }
    } else if d == 2 {
        s.append("2");
        proof {
            reveal_strlit("2");
            assert("2"@ =~= seq![spec_digit(2)]);
        }
    } else if d == 3 {
        s.append("3");
        proof {
            reveal_strlit("3");
            assert("3"@ =~= seq![spec_digit(3)]);
        }
    } else if d == 4 {
        s.append("4");
        proof {
            reveal_strlit("4");
            assert("4"@ =~= seq![spec_digit(4)]);
        }
    } else if d == 5 {
        s.append("5");
        proof {
            reveal_strlit("5");
            assert("5"@ =~= seq![spec_digit(5)]);
        }
    } else if d == 6 {
        s.append("6");
        proof {
            reveal_strlit("6");
            assert("6"@ =~= seq![spec_digit(6)]);
        }
    } else if d == 7 {
        s.append("7");
        proof {
            reveal_strlit("7");
            assert("7"@ =~= seq![spec_digit(7)]);
        }
    } else if d == 8 {
        s.append("8");
        proof {
            reveal_strlit("8");
            assert("8"@ =~= seq![spec_digit(8)]);
        }
    } else {
        s.append("9");
        proof {
            reveal_strlit("9");
            assert("9"@ =~= seq![spec_digit(9)]);
        }
    }
}

/// Appends the decimal digits of `n` to `s`, most significant first.
fn push_decimal(s: &mut String, n: usize)
    ensures
        final(s)@ == old(s)@ + spec_decimal(n as nat),
    decreases n,
{
    if n < 10 {
        push_digit(s, n);
    } else {
        push_decimal(s, n / 10);
        push_digit(s, n % 10);
        proof {
            assert(old(s)@ + spec_decimal((n / 10) as nat) + seq![spec_digit((n % 10) as nat)]
                =~= old(s)@ + spec_decimal(n as nat));
        }
    }
}

/// The decimal representation of `n`, as shown on a badge.
pub fn decimal_string(n: usize) -> (s: String)
    ensures
        s@ == spec_decimal(n as nat),
{
    let mut s = String::new();
    push_decimal(&mut s, n);
    proof {
        assert(Seq::<char>::empty() + spec_decimal(n as nat) =~= spec_decimal(n as nat));
    }
    s
}

/// The badge appended after a tab label when unread notifications exist.
#[derive(Debug)]
pub struct Badge {
    /// The unread count the badge stands for.
    pub count: usize,
    /// The count in decimal, as displayed.
    pub text: String,
    /// Badge height in logical units.
    pub height: u32,
}

/// Everything the rendering layer needs to draw one tab button.
#[derive(Debug)]
pub struct TabButton<A> {
    pub label: String,
    pub icon: String,
    /// The event the button triggers when pressed.
    pub action: A,
    pub active: bool,
    /// Button height in logical units: taller when active.
    pub height: u32,
    /// Style of the icon and label: highlighted when active.
    pub text_style: TextType,
    /// Present exactly when the tab has a positive unread count.
    pub badge: Option<Badge>,
}

/// What `new_tab` promises of a built button, field by field.
pub open spec fn is_tab_button<A>(
    t: TabButton<A>,
    label: Seq<char>,
    icon: Seq<char>,
    action: A,
    active: bool,
    unread: Option<usize>,
) -> bool {
    &&& t.label@ == label
    &&& t.icon@ == icon
    &&& t.action == action
    &&& t.active == active
    &&& t.height == (if active {
        TAB_HEIGHT_ACTIVE
    } else {
        TAB_HEIGHT_INACTIVE
    })
    &&& t.text_style == (if active {
        TextType::Title
    } else {
        TextType::Standard
    })
    &&& match unread {
        Option::Some(n) => if n > 0 {
            t.badge matches Some(b) && b.count == n && b.text@ == spec_decimal(n as nat)
                && b.height == BADGE_HEIGHT
        } else {
            t.badge is None
        },
        Option::None => t.badge is None,
    }
}

/// Builds the description of one tab button. The active tab is taller and
/// uses the highlighted title style; a positive unread count appends a badge
/// showing the count in decimal.
pub fn new_tab<A>(label: String, icon: String, action: A, active: bool, unread: Option<usize>) -> (t:
    TabButton<A>)
    ensures
        is_tab_button(t, label@, icon@, action, active, unread),
{
    let badge = match unread {
        Option::Some(n) => if n > 0 {
            Option::Some(Badge { count: n, text: decimal_string(n), height: BADGE_HEIGHT })
        } else {
            Option::None
        },
        Option::None => Option::None,
    };
    TabButton {
        label,
        icon,
        action,
        active,
        height: if active {
            TAB_HEIGHT_ACTIVE
        } else {
            TAB_HEIGHT_INACTIVE
        },
        text_style: if active {
            TextType::Title
        } else {
            TextType::Standard
        },
        badge,
    }
}

/// Rejected tab-row configurations.
#[derive(Clone, Copy, Debug, PartialEq, Eq, Structural)]
pub enum TabError {
    /// The label, icon, and action arrays do not have equal lengths.
    LengthMismatch,
}

/// The settings tab row: one button per label, the one equal to `active`
/// rendered active, no badges. Rejects arrays of unequal lengths.
pub fn get_settings_tabs<A: Copy>(
    labels: &Vec<String>,
    icons: &Vec<String>,
    actions: &Vec<A>,
    active: &String,
) -> (r: Result<Vec<TabButton<A>>, TabError>)
    ensures
        r is Ok <==> labels@.len() == icons@.len() && labels@.len() == actions@.len(),
        r matches Ok(row) ==> {
            &&& row@.len() == labels@.len()
            &&& forall|j: int|
                0 <= j < row@.len() ==> is_tab_button(
                    #[trigger] row@[j],
                    labels@[j]@,
                    icons@[j]@,
                    actions@[j],
                    labels@[j]@ == active@,
                    Option::None::<usize>,
                )
        },
        r is Err ==> r == Result::<Vec<TabButton<A>>, TabError>::Err(TabError::LengthMismatch),
{
    if labels.len() != icons.len() || labels.len() != actions.len() {
        return Result::Err(TabError::LengthMismatch);
    }
    let mut row: Vec<TabButton<A>> = Vec::new();
    let mut i: usize = 0;
    while i < labels.len()
        invariant
            labels@.len() == icons@.len(),
            labels@.len() == actions@.len(),
            i <= labels@.len(),
            row@.len() == i,
            forall|j: int|
                0 <= j < i ==> is_tab_button(
                    #[trigger] row@[j],
                    labels@[j]@,
                    icons@[j]@,
                    actions@[j],
                    labels@[j]@ == active@,
                    Option::None::<usize>,
                ),
        decreases labels@.len() - i,
    {
        let label = labels[i].clone();
        let icon = icons[i].clone();
        let is_active = labels[i].eq(active);
        let t = new_tab(label, icon, actions[i], is_active, Option::None);
        row.push(t);
        i += 1;
    }
    Result::Ok(row)
}

/// A pages tab row: as `get_settings_tabs`, and the tab whose label equals
/// `notifications` carries the unread count, shown as a badge when positive.
pub fn get_pages_tabs<A: Copy>(
    labels: &Vec<String>,
    icons: &Vec<String>,
    actions: &Vec<A>,
    active: &String,
    notifications: &String,
    unread_notifications: usize,
) -> (r: Result<Vec<TabButton<A>>, TabError>)
    ensures
        r is Ok <==> labels@.len() == icons@.len() && labels@.len() == actions@.len(),
        r matches Ok(row) ==> {
            &&& row@.len() == labels@.len()
            &&& forall|j: int|
                0 <= j < row@.len() ==> is_tab_button(
                    #[trigger] row@[j],
                    labels@[j]@,
                    icons@[j]@,
                    actions@[j],
                    labels@[j]@ == active@,
                    if labels@[j]@ == notifications@ {
                        Option::Some(unread_notifications)
                    } else {
                        Option::None
                    },
                )
        },
        r is Err ==> r == Result::<Vec<TabButton<A>>, TabError>::Err(TabError::LengthMismatch),
{
    if labels.len() != icons.len() || labels.len() != actions.len() {
        return Result::Err(TabError::LengthMismatch);
    }
    let mut row: Vec<TabButton<A>> = Vec::new();
    let mut i: usize = 0;
    while i < labels.len()
        invariant
            labels@.len() == icons@.len(),
            labels@.len() == actions@.len(),
            i <= labels@.len(),
            row@.len() == i,
            forall|j: int|
                0 <= j < i ==> is_tab_button(
                    #[trigger] row@[j],
                    labels@[j]@,
                    icons@[j]@,
                    actions@[j],
                    labels@[j]@ == active@,
                    if labels@[j]@ == notifications@ {
                        Option::Some(unread_notifications)
                    } else {
                        Option::None
                    },
                ),
        decreases labels@.len() - i,
    {
        let label = labels[i].clone();
        let icon = icons[i].clone();
        let is_active = labels[i].eq(active);
        let unread = if labels[i].eq(notifications) {
            Option::Some(unread_notifications)
        } else {
            Option::None
        };
        let t = new_tab(label, icon, actions[i], is_active, unread);
        row.push(t);
        i += 1;
    }
    Result::Ok(row)
}

/// Law: in a built tab row where exactly one label equals the active label,
/// exactly that button has the active height and every other button has the
/// inactive height.
pub proof fn lemma_one_active_height<A>(
    row: Seq<TabButton<A>>,
    labels: Seq<String>,
    icons: Seq<String>,
    actions: Seq<A>,
    active: String,
    unreads: Seq<Option<usize>>,
    k: int,
)
    requires
        row.len() == labels.len(),
        forall|j: int|
            0 <= j < row.len() ==> is_tab_button(
                #[trigger] row[j],
                labels[j]@,
                icons[j]@,
                actions[j],
                labels[j]@ == active@,
                unreads[j],
            ),
        0 <= k < labels.len(),
        labels[k]@ == active@,
        forall|j: int| 0 <= j < labels.len() && j != k ==> labels[j]@ != active@,
    ensures
        row[k].height == TAB_HEIGHT_ACTIVE,
        forall|j: int| 0 <= j < row.len() && j != k ==> #[trigger] row[j].height
            == TAB_HEIGHT_INACTIVE,
{
    assert(is_tab_button(row[k], labels[k]@, icons[k]@, actions[k], labels[k]@ == active@, unreads[k]));
    assert forall|j: int| 0 <= j < row.len() && j != k implies #[trigger] row[j].height
        == TAB_HEIGHT_INACTIVE by {
        assert(is_tab_button(row[j], labels[j]@, icons[j]@, actions[j], labels[j]@ == active@, unreads[j]));
    }
}

/// Law: a built tab button carries a badge exactly when its unread count is
/// positive, and the badge then shows that count in decimal.
pub proof fn lemma_badge_iff_positive_unread<A>(
    t: TabButton<A>,
    label: Seq<char>,
    icon: Seq<char>,
    action: A,
    active: bool,
    n: usize,
)
    requires
        is_tab_button(t, label, icon, action, active, Option::Some(n)),
    ensures
        n == 0 ==> t.badge is None,
        n > 0 ==> (t.badge matches Some(b) && b.count == n && b.text@ == spec_decimal(n as nat)
            && b.height == BADGE_HEIGHT),
{
}

} // verus!
