//! The buttons that the bot offers.

use crate::decimal;
use crate::decimal::u64_text;
use crate::seqs;
use crate::text;
use crate::text::{byte_len, cat2, cat3, cat5, fit, is_empty, join, no_texts, push_text};
use crate::xray::table;
use crate::xray::types::{UserV, XrayUser};
use vstd::prelude::*;

verus! {

/// What the data of a button begins with that shows the URLs of a user.
pub const URL_PREFIX: &'static str = "url:";

/// What the data of a button begins with that shows the configuration of a user.
pub const CONFIG_PREFIX: &'static str = "config:";

/// What the data of a button begins with that shows the QR codes of a user.
pub const QR_PREFIX: &'static str = "qr:";

/// What the data of a button begins with that asks whether to delete a user.
pub const DELETE_PREFIX: &'static str = "delete:";

/// What the data of a button begins with that deletes a user.
pub const DELETE_CONFIRM_PREFIX: &'static str = "delete_confirm:";

/// What the data of a button begins with that deletes no user after all.
pub const DELETE_CANCEL_PREFIX: &'static str = "delete_cancel:";

/// What the data of a button begins with that restores a snapshot.
pub const RESTORE_PREFIX: &'static str = "restore:";

/// The data of the button that upgrades Xray.
pub const UPGRADE_CONFIRM_PREFIX: &'static str = "upgrade_confirm";

/// The data of the button that upgrades nothing after all.
pub const UPGRADE_CANCEL_PREFIX: &'static str = "upgrade_cancel";

/// How many bytes the data of a button may have.
pub const MAX_CALLBACK_DATA_BYTES: usize = 64;

/// A button: what it shows, and the data that it sends when it is pressed.
#[derive(Debug, Clone, PartialEq, Eq)]
pub struct Button {
    pub text: String,
    pub data: String,
}

pub struct ButtonV {
    pub text: Seq<char>,
    pub data: Seq<char>,
}

impl View for Button {
    type V = ButtonV;

    open spec fn view(&self) -> ButtonV {
        ButtonV { text: self.text@, data: self.data@ }
    }
}

/// Rows of buttons under a message.
#[derive(Debug, Clone, PartialEq, Eq)]
pub struct Keyboard {
    pub inline_keyboard: Vec<Vec<Button>>,
}

/// The meanings of the buttons of a row.
pub open spec fn row_of(s: Seq<Button>) -> Seq<ButtonV> {
    Seq::new(s.len(), |i: int| s[i]@)
}

impl View for Keyboard {
    type V = Seq<Seq<ButtonV>>;

    open spec fn view(&self) -> Seq<Seq<ButtonV>> {
        Seq::new(self.inline_keyboard@.len(), |i: int| row_of(self.inline_keyboard@[i]@))
    }
}

impl Keyboard {
    /// A keyboard without buttons.
    pub fn new() -> (r: Keyboard)
        ensures
            r@ == Seq::<Seq<ButtonV>>::empty(),
    {
        let r = Keyboard { inline_keyboard: Vec::new() };
        assert(r@ =~= Seq::empty());
        r
    }

    /// Adds a row with one button.
    pub fn push_button(&mut self, text: String, data: String)
        ensures
            final(self)@ == old(self)@.push(seq![ButtonV { text: text@, data: data@ }]),
    {
        let ghost before = self@;
        let mut row: Vec<Button> = Vec::new();
        row.push(Button { text, data });
        assert(row_of(row@) =~= seq![ButtonV { text: text@, data: data@ }]);
        self.inline_keyboard.push(row);
        assert(self@ =~= before.push(seq![ButtonV { text: text@, data: data@ }]));
    }

    /// A keyboard with two buttons in one row.
    pub fn pair(a: Button, b: Button) -> (r: Keyboard)
        ensures
            r@ == seq![seq![a@, b@]],
    {
        let mut row: Vec<Button> = Vec::new();
        row.push(a);
        row.push(b);
        assert(row_of(row@) =~= seq![a@, b@]);
        let mut r = Keyboard::new();
        r.inline_keyboard.push(row);
        assert(r@ =~= seq![seq![a@, b@]]);
        r
    }
}

// ---- choosing a user ----

/// Buttons for users, the names of those for which there can be none, and how many have no name.
#[derive(Debug, Clone)]
pub struct UserKeyboardResult {
    pub keyboard: Keyboard,
    pub skipped_names: Vec<String>,
    pub unnamed_count: usize,
}

/// The user has no name.
pub open spec fn unnamed() -> spec_fn(UserV) -> bool {
    |u: UserV| u.name.len() == 0
}

/// The user has a name, for which the data of a button has room behind the prefix.
pub open spec fn offered(prefix: Seq<char>) -> spec_fn(UserV) -> bool {
    |u: UserV|
        u.name.len() > 0 && text::bytes(prefix) + text::bytes(u.name) <= MAX_CALLBACK_DATA_BYTES
}

/// The user has a name, for which the data of a button has no room behind the prefix.
pub open spec fn too_long(prefix: Seq<char>) -> spec_fn(UserV) -> bool {
    |u: UserV|
        u.name.len() > 0 && text::bytes(prefix) + text::bytes(u.name) > MAX_CALLBACK_DATA_BYTES
}

/// The row with the button of a user.
pub open spec fn user_button(prefix: Seq<char>) -> spec_fn(UserV) -> Seq<ButtonV> {
    |u: UserV| seq![ButtonV { text: u.name, data: prefix + u.name }]
}

/// The name of a user.
pub open spec fn its_name() -> spec_fn(UserV) -> Seq<char> {
    |u: UserV| u.name
}

/// Builds a keyboard with a button for each user that can have one.
pub fn build_user_keyboard(users: &[XrayUser], callback_prefix: &str) -> (r: UserKeyboardResult)
    ensures
        r.keyboard@ == table::user_views(users@).filter(offered(callback_prefix@)).map_values(
            user_button(callback_prefix@),
        ),
        text::texts(r.skipped_names@) == table::user_views(users@).filter(
            too_long(callback_prefix@),
        ).map_values(its_name()),
        r.unnamed_count == table::user_views(users@).filter(unnamed()).len(),
{
    let ghost all = table::user_views(users@);
    let ghost p = offered(callback_prefix@);
    let ghost q = too_long(callback_prefix@);
    let ghost f = user_button(callback_prefix@);
    let mut keyboard = Keyboard::new();
    let mut skipped_names = no_texts();
    let mut unnamed_count: usize = 0;
    let mut i: usize = 0;
    proof {
        reveal(Seq::filter);
        assert(all.take(0).filter(p).map_values(f) =~= Seq::empty());
        assert(all.take(0).filter(q).map_values(its_name()) =~= Seq::empty());
    }
    while i < users.len()
        invariant
            all == table::user_views(users@),
            p == offered(callback_prefix@),
            q == too_long(callback_prefix@),
            f == user_button(callback_prefix@),
            i <= users@.len(),
            keyboard@ == all.take(i as int).filter(p).map_values(f),
            text::texts(skipped_names@) == all.take(i as int).filter(q).map_values(its_name()),
            unnamed_count == all.take(i as int).filter(unnamed()).len(),
            unnamed_count <= i,
        decreases users.len() - i,
    {
        let name = users[i].name.clone();
        proof {
            let x = all[i as int];
            let t = all.take(i as int);
            assert(x == users@[i as int]@);
            assert(all.take(i + 1) =~= t.push(x));
            seqs::lemma_filter_push(t, x, p);
            seqs::lemma_filter_push(t, x, q);
            seqs::lemma_filter_push(t, x, unnamed());
            assert(t.filter(p).push(x).map_values(f) =~= t.filter(p).map_values(f).push(f(x)));
            assert(t.filter(q).push(x).map_values(its_name()) =~= t.filter(q).map_values(
                its_name(),
            ).push(x.name));
        }
        if is_empty(&name) {
            unnamed_count += 1;
        } else {
            let room: u128 = byte_len(callback_prefix) as u128 + byte_len(&name) as u128;
            if room > MAX_CALLBACK_DATA_BYTES as u128 {
                push_text(&mut skipped_names, name);
            } else {
                let data = cat2(callback_prefix, &name);
                keyboard.push_button(name, data);
            }
        }
        i += 1;
    }
    assert(all.take(i as int) =~= all);
    UserKeyboardResult { keyboard, skipped_names, unnamed_count }
}

/// **Every button fits.** The data of the button of a user has at most as many bytes as it may
/// have, and there is a button, a skipped name or a missing name for every user.
pub proof fn law_buttons_fit(users: Seq<UserV>, prefix: Seq<char>)
    ensures
        forall|i: int|
            #![trigger users.filter(offered(prefix))[i]]
            0 <= i < users.filter(offered(prefix)).len() ==> text::bytes(
                user_button(prefix)(users.filter(offered(prefix))[i])[0].data,
            ) <= MAX_CALLBACK_DATA_BYTES,
        users.filter(offered(prefix)).len() + users.filter(too_long(prefix)).len() + users.filter(
            unnamed(),
        ).len() == users.len(),
    decreases users.len(),
{
    seqs::lemma_filter_all(users, offered(prefix));
    assert forall|i: int|
        #![trigger users.filter(offered(prefix))[i]]
        0 <= i < users.filter(offered(prefix)).len() implies text::bytes(
        user_button(prefix)(users.filter(offered(prefix))[i])[0].data,
    ) <= MAX_CALLBACK_DATA_BYTES by {
        text::lemma_bytes_add(prefix, users.filter(offered(prefix))[i].name);
    }
    reveal(Seq::filter);
    if users.len() > 0 {
        let t = users.drop_last();
        law_buttons_fit(t, prefix);
        assert(users =~= t.push(users.last()));
        seqs::lemma_filter_push(t, users.last(), offered(prefix));
        seqs::lemma_filter_push(t, users.last(), too_long(prefix));
        seqs::lemma_filter_push(t, users.last(), unnamed());
    }
}

// ---- notes ----

/// That so many names more are not shown.
pub open spec fn and_more(n: nat) -> Seq<char> {
    " and "@ + decimal::dec(n) + " more"@
}

/// The names from `shown` on behind `result`, as far as they fit into a limit of bytes with a note
/// of how many are left; where not even the first name fits, how it begins.
pub open spec fn names_within(
    names: Seq<Seq<char>>,
    shown: int,
    result: Seq<char>,
    max: nat,
) -> Seq<char>
    decreases names.len() - shown,
{
    if shown < 0 || shown >= names.len() {
        result
    } else {
        let longer = result + (if shown == 0 {
            Seq::empty()
        } else {
            ", "@
        }) + names[shown];
        let left = (names.len() - shown - 1) as nat;
        let note = if left > 0 {
            text::bytes(and_more(left))
        } else {
            0
        };
        if text::bytes(longer) + note <= max {
            names_within(names, shown + 1, longer, max)
        } else if result.len() == 0 {
            text::fitted(
                names[shown],
                if max >= 3 {
                    (max - 3) as nat
                } else {
                    0
                },
            ) + "..."@
        } else {
            result + and_more(left + 1)
        }
    }
}

/// The names within a limit of bytes: all of them where they fit, else as many as fit with a note
/// of how many are left.
pub open spec fn skipped_text(names: Seq<Seq<char>>, max: nat) -> Seq<char> {
    if text::bytes(text::joined(names, ", "@)) <= max {
        text::joined(names, ", "@)
    } else {
        names_within(names, 0, Seq::empty(), max)
    }
}

fn more_text(n: usize) -> (r: String)
    ensures
        r@ == and_more(n as nat),
{
    cat3(" and ", &u64_text(n as u64), " more")
}

/// Lists names within a limit of bytes. Shows as many as fit, and says how many are left.
pub fn format_skipped_names(skipped: &[String], max_bytes: usize) -> (r: String)
    ensures
        r@ == skipped_text(text::texts(skipped@), max_bytes as nat),
{
    let all = join(skipped, ", ");
    if byte_len(&all) <= max_bytes {
        return all;
    }
    let ghost names = text::texts(skipped@);
    let mut result = String::new();
    let mut shown: usize = 0;
    while shown < skipped.len()
        invariant
            names == text::texts(skipped@),
            text::bytes(text::joined(names, ", "@)) > max_bytes,
            shown <= skipped@.len(),
            names_within(names, 0, Seq::empty(), max_bytes as nat) == names_within(
                names,
                shown as int,
                result@,
                max_bytes as nat,
            ),
        decreases skipped.len() - shown,
    {
        let name = &skipped[shown];
        let left: usize = skipped.len() - shown - 1;
        let longer = cat3(
            &result,
            if shown == 0 {
                ""
            } else {
                ", "
            },
            name,
        );
        proof {
            reveal_strlit("");
            assert(""@ =~= Seq::empty());
        }
        let note: u128 = if left > 0 {
            byte_len(&more_text(left)) as u128
        } else {
            0
        };
        if byte_len(&longer) as u128 + note > max_bytes as u128 {
            if is_empty(&result) {
                let room: usize = if max_bytes >= 3 {
                    max_bytes - 3
                } else {
                    0
                };
                return cat2(&fit(name, room), "...");
            }
            return cat2(&result, &more_text(left + 1));
        }
        result = longer;
        shown += 1;
    }
    result
}

proof fn lemma_names_within(names: Seq<Seq<char>>, shown: int, result: Seq<char>, max: nat)
    requires
        0 <= shown <= names.len(),
        text::bytes(result) <= max,
        result.len() > 0 && shown < names.len() ==> text::bytes(result) + text::bytes(
            and_more((names.len() - shown) as nat),
        ) <= max,
    ensures
        text::bytes(names_within(names, shown, result, max)) <= if max >= 3 {
            max
        } else {
            3
        },
    decreases names.len() - shown,
{
    if shown < names.len() {
        let longer = result + (if shown == 0 {
            Seq::empty()
        } else {
            ", "@
        }) + names[shown];
        let left = (names.len() - shown - 1) as nat;
        let note = if left > 0 {
            text::bytes(and_more(left))
        } else {
            0
        };
        if text::bytes(longer) + note <= max {
            lemma_names_within(names, shown + 1, longer, max);
        } else if result.len() == 0 {
            let room = if max >= 3 {
                (max - 3) as nat
            } else {
                0
            };
            text::law_fitted_fits(names[shown], room);
            text::lemma_bytes_add(text::fitted(names[shown], room), "..."@);
            reveal_strlit("...");
            text::lemma_bytes_ascii("..."@);
        } else {
            text::lemma_bytes_add(result, and_more(left + 1));
        }
    }
}

/// **A list of names stays within its limit** of bytes, if that has room for the dots.
pub proof fn law_names_fit(names: Seq<Seq<char>>, max: nat)
    ensures
        text::bytes(skipped_text(names, max)) <= if max >= 3 {
            max
        } else {
            3
        },
{
    reveal_with_fuel(vstd::utf8::encode_utf8, 1);
    lemma_names_within(names, 0, Seq::empty(), max);
}

/// The notes of a selection: on names that are too long, and on missing ones.
pub open spec fn selection_notes(base: Seq<char>, skipped: Seq<Seq<char>>, unnamed: nat) -> Seq<
    Seq<char>,
> {
    (if skipped.len() == 0 {
        Seq::empty()
    } else {
        seq![
            decimal::dec(skipped.len())
                + " user(s) have names too long for inline buttons. Use the command with the name directly: "@
                + skipped_text(
                skipped,
                if text::bytes(base) <= 3400 {
                    (3400 - text::bytes(base)) as nat
                } else {
                    0
                },
            ),
        ]
    }) + (if unnamed == 0 {
        Seq::empty()
    } else {
        seq![
            decimal::dec(unnamed) + " unnamed user(s) not shown. Use /users to see them."@,
        ]
    })
}

/// A question for a user, with its notes.
pub open spec fn selection_text(base: Seq<char>, skipped: Seq<Seq<char>>, unnamed: nat) -> Seq<
    char,
> {
    let notes = selection_notes(base, skipped, unnamed);
    if notes.len() == 0 {
        base
    } else {
        base + "\n\nNote: "@ + text::joined(notes, "\n"@)
    }
}

/// A question for a user, with notes on those for which there is no button.
pub fn format_selection_message(
    base_msg: &str,
    skipped: &[String],
    unnamed_count: usize,
) -> (r: String)
    ensures
        r@ == selection_text(base_msg@, text::texts(skipped@), unnamed_count as nat),
{
    let mut notes = no_texts();
    if skipped.len() > 0 {
        let n: usize = byte_len(base_msg);
        let room: usize = if n <= 3400 {
            3400 - n
        } else {
            0
        };
        push_text(
            &mut notes,
            cat3(
                &u64_text(skipped.len() as u64),
                " user(s) have names too long for inline buttons. Use the command with the name directly: ",
                &format_skipped_names(skipped, room),
            ),
        );
    }
    if unnamed_count > 0 {
        push_text(
            &mut notes,
            cat2(
                &u64_text(unnamed_count as u64),
                " unnamed user(s) not shown. Use /users to see them.",
            ),
        );
    }
    assert(text::texts(notes@) =~= selection_notes(
        base_msg@,
        text::texts(skipped@),
        unnamed_count as nat,
    ));
    if notes.len() == 0 {
        base_msg.to_owned()
    } else {
        cat3(base_msg, "\n\nNote: ", &join(&notes, "\n"))
    }
}

/// Why there is no button at all.
pub open spec fn empty_parts(hint: Seq<char>, skipped: Seq<Seq<char>>, unnamed: nat) -> Seq<
    Seq<char>,
> {
    (if skipped.len() == 0 {
        Seq::empty()
    } else {
        seq![
            decimal::dec(skipped.len()) + " user(s) have names too long for inline buttons. Use "@
                + hint + " directly for: "@ + skipped_text(skipped, 3900),
        ]
    }) + (if unnamed == 0 {
        Seq::empty()
    } else {
        seq![decimal::dec(unnamed) + " user(s) have no name set. Use /users to see them."@]
    })
}

/// What is said where there is no button at all.
pub open spec fn empty_text(hint: Seq<char>, skipped: Seq<Seq<char>>, unnamed: nat) -> Seq<char> {
    let parts = empty_parts(hint, skipped, unnamed);
    if parts.len() == 0 {
        "No users found."@
    } else {
        text::joined(parts, "\n\n"@)
    }
}

/// What is said where there is no button at all.
pub fn format_empty_keyboard_message(
    command_hint: &str,
    skipped: &[String],
    unnamed_count: usize,
) -> (r: String)
    ensures
        r@ == empty_text(command_hint@, text::texts(skipped@), unnamed_count as nat),
{
    let mut parts = no_texts();
    if skipped.len() > 0 {
        push_text(
            &mut parts,
            cat5(
                &u64_text(skipped.len() as u64),
                " user(s) have names too long for inline buttons. Use ",
                command_hint,
                " directly for: ",
                &format_skipped_names(skipped, 3900),
            ),
        );
    }
    if unnamed_count > 0 {
        push_text(
            &mut parts,
            cat2(
                &u64_text(unnamed_count as u64),
                " user(s) have no name set. Use /users to see them.",
            ),
        );
    }
    assert(text::texts(parts@) =~= empty_parts(
        command_hint@,
        text::texts(skipped@),
        unnamed_count as nat,
    ));
    if parts.len() == 0 {
        "No users found.".to_owned()
    } else {
        join(&parts, "\n\n")
    }
}

// ---- confirming ----

/// The buttons that confirm or cancel a deletion.
pub open spec fn delete_buttons(uuid: Seq<char>) -> Seq<Seq<ButtonV>> {
    seq![
        seq![
            ButtonV { text: "Yes, delete"@, data: DELETE_CONFIRM_PREFIX@ + uuid },
            ButtonV { text: "Cancel"@, data: DELETE_CANCEL_PREFIX@ + uuid },
        ],
    ]
}

/// Builds the buttons that confirm or cancel a deletion.
pub fn delete_confirmation_keyboard(user_uuid: &str) -> (r: Keyboard)
    ensures
        r@ == delete_buttons(user_uuid@),
{
    Keyboard::pair(
        Button {
            text: "Yes, delete".to_owned(),
            data: cat2(DELETE_CONFIRM_PREFIX, user_uuid),
        },
        Button { text: "Cancel".to_owned(), data: cat2(DELETE_CANCEL_PREFIX, user_uuid) },
    )
}

/// The buttons that confirm or cancel an upgrade.
pub open spec fn upgrade_buttons() -> Seq<Seq<ButtonV>> {
    seq![
        seq![
            ButtonV { text: "Yes, upgrade"@, data: UPGRADE_CONFIRM_PREFIX@ },
            ButtonV { text: "Cancel"@, data: UPGRADE_CANCEL_PREFIX@ },
        ],
    ]
}

/// Builds the buttons that confirm or cancel an upgrade.
pub fn upgrade_keyboard() -> (r: Keyboard)
    ensures
        r@ == upgrade_buttons(),
{
    Keyboard::pair(
        Button {
            text: "Yes, upgrade".to_owned(),
            data: UPGRADE_CONFIRM_PREFIX.to_owned(),
        },
        Button { text: "Cancel".to_owned(), data: UPGRADE_CANCEL_PREFIX.to_owned() },
    )
}

// ---- laws ----

proof fn lemma_map_push<A, B>(s: Seq<A>, x: A, f: spec_fn(A) -> B)
    ensures
        s.push(x).map_values(f) == s.map_values(f).push(f(x)),
{
    assert(s.push(x).map_values(f) =~= s.map_values(f).push(f(x)));
}

/// **Each user has a button of its own, or is counted among those that cannot have one.** One user
/// more leaves the buttons of the others as they are. It gets a button that shows its name and sends
/// the prefix with that very name; where that has more than 64 bytes, its name is skipped; where it
/// has no name, it is counted as such.
pub proof fn law_keyboard_grows(
    a: &[XrayUser],
    b: &[XrayUser],
    x: XrayUser,
    prefix: &str,
    r: UserKeyboardResult,
    s: UserKeyboardResult,
)
    requires
        call_ensures(build_user_keyboard, (a, prefix), r),
        call_ensures(build_user_keyboard, (b, prefix), s),
        b@ == a@.push(x),
    ensures
        a@.len() == 0 ==> r.keyboard@.len() == 0 && r.skipped_names@.len() == 0 && r.unnamed_count
            == 0,
        x.name@.len() == 0 ==> s.keyboard@ == r.keyboard@ && text::texts(s.skipped_names@)
            == text::texts(r.skipped_names@) && s.unnamed_count == r.unnamed_count + 1,
        x.name@.len() > 0 && text::bytes(prefix@) + text::bytes(x.name@) <= 64 ==> s.keyboard@
            == r.keyboard@.push(seq![ButtonV { text: x.name@, data: prefix@ + x.name@ }])
            && text::texts(s.skipped_names@) == text::texts(r.skipped_names@) && s.unnamed_count
            == r.unnamed_count,
        x.name@.len() > 0 && text::bytes(prefix@) + text::bytes(x.name@) > 64 ==> s.keyboard@
            == r.keyboard@ && text::texts(s.skipped_names@) == text::texts(r.skipped_names@).push(
            x.name@,
        ) && s.unnamed_count == r.unnamed_count,
{
    let old_users = table::user_views(a@);
    assert(table::user_views(b@) =~= old_users.push(x@));
    let p = offered(prefix@);
    let q = too_long(prefix@);
    seqs::lemma_filter_push(old_users, x@, p);
    seqs::lemma_filter_push(old_users, x@, q);
    seqs::lemma_filter_push(old_users, x@, unnamed());
    lemma_map_push(old_users.filter(p), x@, user_button(prefix@));
    lemma_map_push(old_users.filter(q), x@, its_name());
    if a@.len() == 0 {
        reveal(Seq::filter);
        assert(text::texts(r.skipped_names@).len() == r.skipped_names@.len());
    }
}

/// Names, and then how many are left.
pub open spec fn cut_off(names: Seq<Seq<char>>, k: int, r: Seq<char>) -> bool {
    0 <= k < names.len() && r == text::joined(names.take(k), ", "@) + (" and "@ + decimal::dec(
        (names.len() - k) as nat,
    ) + " more"@)
}

/// The beginning of the first name that can be shown, with dots.
pub open spec fn dotted(names: Seq<Seq<char>>, k: int, r: Seq<char>) -> bool {
    0 <= k < names.len() && r.len() >= 3 && r.skip(r.len() - 3) == "..."@ && r.take(
        r.len() - 3,
    ).is_prefix_of(names[k])
}

proof fn lemma_cut_off(names: Seq<Seq<char>>, shown: int, result: Seq<char>, max: nat)
    requires
        0 <= shown <= names.len(),
        result == text::joined(names.take(shown), ", "@),
    ensures
        ({
            let r = names_within(names, shown, result, max);
            r == text::joined(names, ", "@) || (exists|k: int| #[trigger] cut_off(names, k, r)) || (
            exists|k: int| #[trigger] dotted(names, k, r))
        }),
    decreases names.len() - shown,
{
    let r = names_within(names, shown, result, max);
    if shown == names.len() {
        assert(names.take(shown) =~= names);
    } else {
        let longer = result + (if shown == 0 {
            Seq::empty()
        } else {
            ", "@
        }) + names[shown];
        let left = (names.len() - shown - 1) as nat;
        let note = if left > 0 {
            text::bytes(and_more(left))
        } else {
            0
        };
        assert(names.take(shown + 1).drop_last() =~= names.take(shown));
        assert(longer =~= text::joined(names.take(shown + 1), ", "@));
        if text::bytes(longer) + note <= max {
            lemma_cut_off(names, shown + 1, longer, max);
        } else if result.len() == 0 {
            let room = if max >= 3 {
                (max - 3) as nat
            } else {
                0
            };
            let f = text::fitted(names[shown], room);
            reveal_strlit("...");
            text::law_fitted_fits(names[shown], room);
            assert(r.skip(r.len() - 3) =~= "..."@);
            assert(r.take(r.len() - 3) =~= f);
            assert(dotted(names, shown, r));
        } else {
            assert(cut_off(names, shown, r));
        }
    }
}

/// **No name is left out in silence.** The names that are listed are all of them, where they fit; else
/// those at the beginning with the number of the others, or how a name begins, with dots.
pub proof fn law_no_name_is_lost(names: &[String], max: usize, all: String, sep: &str, r: String)
    requires
        call_ensures(format_skipped_names, (names, max), r),
        sep@ == ", "@,
        call_ensures(join, (names, sep), all),
    ensures
        text::bytes(all@) <= max ==> r@ == all@,
        r@ == all@ || (exists|k: int| #[trigger] cut_off(text::texts(names@), k, r@)) || (exists|
            k: int,
        | #[trigger]
            dotted(text::texts(names@), k, r@)),
{
    let t = text::texts(names@);
    assert(t.take(0) =~= Seq::empty());
    lemma_cut_off(t, 0, Seq::empty(), max as nat);
}

/// **A question says which users it leaves out**: the names that are too long for a button, and how
/// many have none.
pub proof fn law_question_says_who_is_left_out(
    base: &str,
    skipped: &[String],
    unnamed: usize,
    room: usize,
    names: String,
    r: String,
)
    requires
        call_ensures(format_selection_message, (base, skipped, unnamed), r),
        text::bytes(base@) + room == 3400,
        call_ensures(format_skipped_names, (skipped, room), names),
    ensures
        skipped@.len() == 0 && unnamed == 0 ==> r@ == base@,
        skipped@.len() == 0 && unnamed > 0 ==> r@ == base@ + "\n\nNote: "@ + (decimal::dec(
            unnamed as nat,
        ) + " unnamed user(s) not shown. Use /users to see them."@),
        skipped@.len() > 0 && unnamed == 0 ==> r@ == base@ + "\n\nNote: "@ + (decimal::dec(
            skipped@.len(),
        )
            + " user(s) have names too long for inline buttons. Use the command with the name directly: "@
            + names@),
        skipped@.len() > 0 && unnamed > 0 ==> r@ == base@ + "\n\nNote: "@ + (decimal::dec(
            skipped@.len(),
        )
            + " user(s) have names too long for inline buttons. Use the command with the name directly: "@
            + names@ + "\n"@ + (decimal::dec(unnamed as nat)
            + " unnamed user(s) not shown. Use /users to see them."@)),
{
    let notes = selection_notes(base@, text::texts(skipped@), unnamed as nat);
    reveal_with_fuel(text::joined, 3);
    assert(text::texts(skipped@).len() == skipped@.len());
    if skipped@.len() > 0 && unnamed > 0 {
        assert(notes.drop_last() =~= seq![notes[0]]);
    }
}

/// **Where no user can have a button, it is said why**, and what to write instead.
pub proof fn law_no_button_is_explained(
    hint: &str,
    skipped: &[String],
    unnamed: usize,
    names: String,
    r: String,
)
    requires
        call_ensures(format_empty_keyboard_message, (hint, skipped, unnamed), r),
        call_ensures(format_skipped_names, (skipped, 3900usize), names),
    ensures
        skipped@.len() == 0 && unnamed == 0 ==> r@ == "No users found."@,
        skipped@.len() == 0 && unnamed > 0 ==> r@ == decimal::dec(unnamed as nat)
            + " user(s) have no name set. Use /users to see them."@,
        skipped@.len() > 0 && unnamed == 0 ==> r@ == decimal::dec(skipped@.len())
            + " user(s) have names too long for inline buttons. Use "@ + hint@
            + " directly for: "@ + names@,
        skipped@.len() > 0 && unnamed > 0 ==> r@ == decimal::dec(skipped@.len())
            + " user(s) have names too long for inline buttons. Use "@ + hint@
            + " directly for: "@ + names@ + "\n\n"@ + (decimal::dec(unnamed as nat)
            + " user(s) have no name set. Use /users to see them."@),
{
    let parts = empty_parts(hint@, text::texts(skipped@), unnamed as nat);
    reveal_with_fuel(text::joined, 3);
    assert(text::texts(skipped@).len() == skipped@.len());
    if skipped@.len() > 0 && unnamed > 0 {
        assert(parts.drop_last() =~= seq![parts[0]]);
    }
}

} // verus!
