//! The state of the terminal interface and how each key press changes it.
//!
//! The interface shows the keys of the stack and a dialog at a time. A key
//! press updates the state and may ask for an operation, which the caller
//! carries out before handing the outcome back; drawing is the caller's.
use vstd::prelude::*;

use crate::backends::xhd::{context_name, format_xhd_params, xhd_name, XhdContext, XhdScheme};
use crate::config::SeetleConfig;
use crate::hex::{decode, encode, hex_decoding, hex_encoding};
use crate::init::{master_seed_id, master_seed_name};
use crate::text::{
    chars_of, decimal, joined, parse_u32, pop_char, push_char, u32_parse, u32_to_string,
    utf8_bytes, utf8_encoding, utf8_lossy, utf8_lossy_decoding,
};
use crate::types::{
    error_message, Algorithm, Bindings, HardwareBound, KeyMetadata, KeyOrIdentifier, KeyUsage,
    SeetleError,
};

verus! {

/// The index after `sel` in a list of `len` entries, wrapping around; the
/// first entry when nothing is selected.
pub open spec fn cycle_next(sel: Option<usize>, len: nat) -> nat {
    match sel {
        Some(i) => if i + 1 >= len {
            0
        } else {
            (i + 1) as nat
        },
        None => 0,
    }
}

/// The index before `sel` in a list of `len` entries, wrapping around; the
/// first entry when nothing is selected.
pub open spec fn cycle_prev(sel: Option<usize>, len: nat) -> nat {
    match sel {
        Some(i) => if i == 0 {
            (len - 1) as nat
        } else {
            (i - 1) as nat
        },
        None => 0,
    }
}

/// The index after `sel`, wrapping around.
pub fn next_index(sel: Option<usize>, len: usize) -> (i: usize)
    requires
        len > 0,
    ensures
        i == cycle_next(sel, len as nat),
        i < len,
{
    match sel {
        Some(i) => if i >= len - 1 {
            0
        } else {
            i + 1
        },
        None => 0,
    }
}

/// The index before `sel`, wrapping around.
pub fn prev_index(sel: Option<usize>, len: usize) -> (i: usize)
    requires
        len > 0,
        sel matches Some(s) ==> s < len,
    ensures
        i == cycle_prev(sel, len as nat),
        i < len,
{
    match sel {
        Some(i) => if i == 0 {
            len - 1
        } else {
            i - 1
        },
        None => 0,
    }
}

/// Moving down then up, or up then down, comes back to the same entry.
pub proof fn law_cycle_roundtrip(i: usize, len: nat)
    requires
        i < len <= usize::MAX,
    ensures
        cycle_prev(Some(cycle_next(Some(i), len) as usize), len) == i,
        cycle_next(Some(cycle_prev(Some(i), len) as usize), len) == i,
{
}

/// The storage protections offered in the settings dialog.
pub open spec fn wrapper_option(i: nat) -> Seq<char> {
    if i == 0 {
        "keyring"@
    } else if i == 1 {
        "tpm"@
    } else {
        "none"@
    }
}

/// The root backends offered in the settings dialog.
pub open spec fn backend_option(i: nat) -> Seq<char> {
    if i == 0 {
        "keyring"@
    } else if i == 1 {
        "tpm"@
    } else {
        "mock"@
    }
}

/// The number of choices in each list of the settings dialog.
pub const CONFIG_OPTIONS: usize = 3;

/// The number of algorithms offered for generation (Ed25519 only).
pub const GEN_ALG_OPTIONS: usize = 1;

/// The number of derivation contexts offered for generation.
pub const GEN_CONTEXT_OPTIONS: usize = 2;

/// The storage protection offered at position `i` of the settings dialog.
pub fn wrapper_str(i: usize) -> (s: &'static str)
    ensures
        s@ == wrapper_option(i as nat),
{
    if i == 0 {
        "keyring"
    } else if i == 1 {
        "tpm"
    } else {
        "none"
    }
}

/// The root backend offered at position `i` of the settings dialog.
pub fn backend_str(i: usize) -> (s: &'static str)
    ensures
        s@ == backend_option(i as nat),
{
    if i == 0 {
        "keyring"
    } else if i == 1 {
        "tpm"
    } else {
        "mock"
    }
}

/// The derivation context offered at position `i`.
pub open spec fn context_option(i: nat) -> XhdContext {
    if i == 0 {
        XhdContext::Address
    } else {
        XhdContext::Identity
    }
}

/// The position of a setting among the offered choices, if it is one.
pub open spec fn option_position(value: Seq<char>, choice: spec_fn(nat) -> Seq<char>) -> Option<
    nat,
> {
    if value == choice(0) {
        Some(0)
    } else if value == choice(1) {
        Some(1)
    } else if value == choice(2) {
        Some(2)
    } else {
        None
    }
}

/// The interface's dialogs.
#[derive(Debug, Clone, PartialEq, Eq)]
pub enum Modal {
    /// No dialog is open.
    Closed,
    Config,
    GenerateKey,
    SignData,
    VerifySignature,
    EncryptData,
    DecryptData,
    Ecdh,
    HpkeSeal,
    HpkeOpen,
    ExportKey,
    DeleteConfirmation(String),
    Error(String),
}

/// A key as the interface sees it.
#[derive(Debug, Clone, Copy, PartialEq, Eq, Structural)]
pub enum KeyCode {
    Char(char),
    Up,
    Down,
    Tab,
    Enter,
    Esc,
    Backspace,
    Other,
}

/// A key press: the key and whether Control was held.
#[derive(Debug, Clone, Copy, PartialEq, Eq, Structural)]
pub struct KeyInput {
    pub code: KeyCode,
    pub control: bool,
}

/// What a key press asks the caller to do.
#[derive(Debug, Clone)]
pub enum Action {
    /// Nothing more.
    Nothing,
    /// Leave the interface.
    Quit,
    /// Save the settings; report the outcome with `config_saved`.
    SaveConfig,
    /// Generate a (non-extractable) key.
    Generate { algorithm: Algorithm, bindings: Bindings, usages: Vec<KeyUsage> },
    /// Sign `data` with the key `identifier`; report with `sign_done`.
    Sign { identifier: String, algorithm: Algorithm, data: Vec<u8> },
    /// Verify; report with `verify_done`.
    Verify { identifier: String, algorithm: Algorithm, signature: Vec<u8>, data: Vec<u8> },
    /// Encrypt; report with `encrypt_done`.
    Encrypt { identifier: String, algorithm: Algorithm, data: Vec<u8> },
    /// Decrypt; report with `decrypt_done`.
    Decrypt { identifier: String, algorithm: Algorithm, data: Vec<u8> },
    /// Derive bits; report with `ecdh_done`, then reload the keys when
    /// `refresh` is set and the derivation succeeded.
    DeriveBits { identifier: String, algorithm: Algorithm, length: u32, refresh: bool },
    /// Encrypt for a peer; report with `hpke_seal_done`.
    HpkeSeal { key: KeyOrIdentifier, algorithm: Algorithm, data: Vec<u8> },
    /// Decrypt a message for a key; report with `hpke_open_done`.
    HpkeOpen { identifier: String, algorithm: Algorithm, data: Vec<u8> },
    /// Export a key; report with `export_done`.
    Export { identifier: String },
    /// Delete a key; report with `delete_done`.
    Delete { identifier: String },
    /// Reload the keys.
    Refresh,
    /// Rebuild the stack, then reload the keys.
    Reconnect,
    /// Put `text` on the clipboard.
    Copy(String),
}

/// The value of an index as the interface's signed arithmetic reads it.
pub open spec fn signed_index(idx: u32) -> int {
    if idx < 0x8000_0000 {
        idx as int
    } else {
        idx as int - 0x1_0000_0000
    }
}

/// A key was derived in the context `ctx` under the account `account`, at
/// some index.
pub open spec fn in_slot(k: KeyMetadata, ctx: Seq<char>, account: u32) -> bool {
    &&& k.context matches Some(c) && c@ == ctx
    &&& k.account == Some(account)
    &&& k.index is Some
}

/// The largest index used in a slot, -1 when none is.
pub open spec fn max_slot_index(keys: Seq<KeyMetadata>, ctx: Seq<char>, account: u32) -> int
    decreases keys.len(),
{
    if keys.len() == 0 {
        -1
    } else {
        let rest = max_slot_index(keys.drop_last(), ctx, account);
        let k = keys.last();
        if in_slot(k, ctx, account) && signed_index(k.index->0) > rest {
            signed_index(k.index->0)
        } else {
            rest
        }
    }
}

/// No key reports the largest signed index, whose successor would not be
/// representable.
pub open spec fn indices_bounded(keys: Seq<KeyMetadata>) -> bool {
    forall|i: int| 0 <= i < keys.len() ==> #[trigger] keys[i].index != Some(0x7fff_ffffu32)
}

proof fn lemma_max_slot_index_bounds(keys: Seq<KeyMetadata>, ctx: Seq<char>, account: u32)
    requires
        indices_bounded(keys),
    ensures
        -1 <= max_slot_index(keys, ctx, account) < 0x7fff_ffff,
    decreases keys.len(),
{
    if keys.len() > 0 {
        assert(indices_bounded(keys.drop_last())) by {
            assert forall|i: int| 0 <= i < keys.drop_last().len() implies #[trigger] keys.drop_last()[i].index
                != Some(0x7fff_ffffu32) by {
                assert(keys.drop_last()[i] == keys[i]);
            }
        }
        lemma_max_slot_index_bounds(keys.drop_last(), ctx, account);
        assert(keys.last() == keys[keys.len() - 1]);
    }
}

/// The accounts keys were derived under, once each, in order of first
/// appearance, starting with account 0.
pub open spec fn seen_accounts(keys: Seq<KeyMetadata>) -> Seq<u32>
    decreases keys.len(),
{
    if keys.len() == 0 {
        seq![0u32]
    } else {
        let rest = seen_accounts(keys.drop_last());
        match keys.last().account {
            Some(a) => if rest.contains(a) {
                rest
            } else {
                rest.push(a)
            },
            None => rest,
        }
    }
}

/// A list of numbers in ascending order.
pub open spec fn ascending(s: Seq<u32>) -> bool {
    forall|i: int, j: int| 0 <= i < j < s.len() ==> s[i] <= s[j]
}

/// No entry occurs twice.
pub open spec fn distinct(s: Seq<u32>) -> bool {
    forall|i: int, j: int| 0 <= i < j < s.len() ==> s[i] != s[j]
}

/// The state of the interface.
pub struct App {
    pub config: SeetleConfig,
    /// Whether the stack has been set up.
    pub connected: bool,
    pub keys: Vec<KeyMetadata>,
    pub selected_key: Option<usize>,
    pub modal: Modal,
    pub wrapper_selected: Option<usize>,
    pub backend_selected: Option<usize>,
    /// The field or list a dialog's typing goes to.
    pub active_field: usize,
    pub gen_id: String,
    pub gen_alg_selected: Option<usize>,
    pub gen_context_selected: Option<usize>,
    pub gen_account: String,
    pub gen_account_options: Vec<u32>,
    pub gen_index: String,
    pub sign_data: String,
    pub sign_result: String,
    pub verify_data: String,
    pub verify_sig: String,
    pub verify_result: Option<bool>,
    pub encrypt_data: String,
    pub encrypt_result: String,
    pub decrypt_data: String,
    pub decrypt_result: String,
    pub export_result: String,
    pub ecdh_peer_pub: String,
    pub ecdh_new_key_id: String,
    pub ecdh_result: String,
    pub ecdh_selected: Option<usize>,
    pub hpke_peer_pub: String,
    pub hpke_info: String,
    pub hpke_result: String,
    pub hpke_combined_data: String,
    pub hpke_selected: Option<usize>,
}

/// The selections other than the key list's, and the settings, are the
/// same in both states.
pub open spec fn same_choices(a: App, b: App) -> bool {
    &&& a.wrapper_selected == b.wrapper_selected
    &&& a.backend_selected == b.backend_selected
    &&& a.gen_alg_selected == b.gen_alg_selected
    &&& a.ecdh_selected == b.ecdh_selected
    &&& a.hpke_selected == b.hpke_selected
    &&& a.config == b.config
}

/// The outcome text of an operation that gives bytes: their hex, or the
/// error's message after `Error: `.
pub open spec fn hex_outcome(r: Result<Vec<u8>, SeetleError>) -> Seq<char> {
    match r {
        Ok(v) => hex_encoding(v@),
        Err(e) => "Error: "@ + error_message(e),
    }
}

/// The outcome text of an operation that gives text back: the bytes read
/// as UTF-8, or the error's message after `Error: `.
pub open spec fn text_outcome(r: Result<Vec<u8>, SeetleError>) -> Seq<char> {
    match r {
        Ok(v) => utf8_lossy_decoding(v@),
        Err(e) => "Error: "@ + error_message(e),
    }
}

fn error_text(e: &SeetleError) -> (s: String)
    ensures
        s@ == "Error: "@ + error_message(*e),
{
    joined("Error: ", e.message().as_str())
}

fn hex_result(r: Result<Vec<u8>, SeetleError>) -> (s: String)
    ensures
        s@ == hex_outcome(r),
{
    match &r {
        Ok(v) => encode(v.as_slice()),
        Err(e) => error_text(e),
    }
}

fn text_result(r: Result<Vec<u8>, SeetleError>) -> (s: String)
    ensures
        s@ == text_outcome(r),
{
    match &r {
        Ok(v) => utf8_lossy(v.as_slice()),
        Err(e) => error_text(e),
    }
}

fn position_of(value: &String, first: &str, second: &str, third: &str) -> (r: Option<usize>)
    ensures
        r == if value@ == first@ {
            Some(0usize)
        } else if value@ == second@ {
            Some(1usize)
        } else if value@ == third@ {
            Some(2usize)
        } else {
            None
        },
{
    if *value == String::from_str(first) {
        Some(0)
    } else if *value == String::from_str(second) {
        Some(1)
    } else if *value == String::from_str(third) {
        Some(2)
    } else {
        None
    }
}

/// The text an account field is read as: its number, 0 when it is not one.
pub open spec fn account_value(text: Seq<char>) -> u32 {
    match u32_parse(text) {
        Some(n) => n,
        None => 0,
    }
}

fn parse_or_zero(s: &String) -> (n: u32)
    ensures
        n == account_value(s@),
{
    let chars = chars_of(s.as_str());
    match parse_u32(chars.as_slice()) {
        Some(n) => n,
        None => 0,
    }
}

/// Sorts numbers in ascending order.
fn sort_u32(v: Vec<u32>) -> (r: Vec<u32>)
    ensures
        r@.len() == v@.len(),
        ascending(r@),
        forall|x: u32| v@.contains(x) <==> r@.contains(x),
        distinct(v@) ==> distinct(r@),
{
    let mut r: Vec<u32> = Vec::new();
    let mut i: usize = 0;
    while i < v.len()
        invariant
            i <= v@.len(),
            r@.len() == i,
            ascending(r@),
            forall|x: u32| v@.take(i as int).contains(x) <==> r@.contains(x),
            distinct(v@) ==> distinct(r@),
        decreases v@.len() - i,
    {
        let x = v[i];
        let mut j: usize = 0;
        while j < r.len() && r[j] <= x
            invariant
                j <= r@.len(),
                forall|k: int| 0 <= k < j ==> r@[k] <= x,
            decreases r@.len() - j,
        {
            j = j + 1;
        }
        let ghost old_r = r@;
        assert(forall|y: u32| v@.take(i as int).contains(y) <==> old_r.contains(y));
        r.insert(j, x);
        proof {
            assert(r@ =~= old_r.take(j as int).push(x) + old_r.skip(j as int));
            assert forall|a: int, b: int| 0 <= a < b < r@.len() implies r@[a] <= r@[b] by {
                if b < j {
                } else if b == j {
                } else if a < j {
                    assert(old_r[a] <= x);
                    assert(j < old_r.len() ==> x < old_r[j as int]);
                    assert(old_r[j as int] <= old_r[b - 1]);
                } else if a == j {
                    assert(j < old_r.len() ==> x < old_r[j as int]);
                    assert(old_r[j as int] <= old_r[b - 1]);
                } else {
                    assert(old_r[a - 1] <= old_r[b - 1]);
                }
            }
            assert(v@.take(i + 1) =~= v@.take(i as int).push(x));
            assert forall|y: u32| r@.contains(y) <==> (old_r.contains(y) || y == x) by {
                if r@.contains(y) {
                    let k = choose|k: int| 0 <= k < r@.len() && #[trigger] r@[k] == y;
                    if k < j {
                        assert(old_r[k] == y);
                    } else if k > j {
                        assert(old_r[k - 1] == y);
                    }
                }
                if old_r.contains(y) {
                    let k = choose|k: int| 0 <= k < old_r.len() && #[trigger] old_r[k] == y;
                    if k < j {
                        assert(r@[k] == y);
                    } else {
                        assert(r@[k + 1] == y);
                    }
                }
                if y == x {
                    assert(r@[j as int] == y);
                }
            }
            assert forall|y: u32| v@.take(i + 1).contains(y) <==> (v@.take(i as int).contains(y)
                || y == x) by {
                let vt = v@.take(i + 1);
                let vs = v@.take(i as int);
                if vt.contains(y) {
                    let k = choose|k: int| 0 <= k < vt.len() && #[trigger] vt[k] == y;
                    if k < i {
                        assert(vs[k] == y);
                    }
                }
                if vs.contains(y) {
                    let k = choose|k: int| 0 <= k < vs.len() && #[trigger] vs[k] == y;
                    assert(vt[k] == y);
                }
                if y == x {
                    assert(vt[i as int] == x);
                }
            }
            assert forall|y: u32| v@.take(i + 1).contains(y) <==> r@.contains(y) by {
                assert(v@.take(i as int).contains(y) <==> old_r.contains(y));
            }
            if distinct(v@) {
                assert(!v@.take(i as int).contains(x)) by {
                    if v@.take(i as int).contains(x) {
                        let k = choose|k: int| 0 <= k < i && v@.take(i as int)[k] == x;
                        assert(v@[k] == v@[i as int]);
                    }
                }
                assert(!old_r.contains(x));
                assert forall|a: int, b: int| 0 <= a < b < r@.len() implies r@[a] != r@[b] by {
                    if a < j && b < j {
                    } else if a < j && b == j {
                        assert(old_r[a] != x) by {
                            if old_r[a] == x {
                                assert(old_r.contains(x));
                            }
                        }
                    } else if a < j && b > j {
                        assert(old_r[a] != old_r[b - 1]);
                    } else if a == j {
                        assert(old_r[b - 1] != x) by {
                            if old_r[b - 1] == x {
                                assert(old_r.contains(x));
                            }
                        }
                    } else {
                        assert(old_r[a - 1] != old_r[b - 1]);
                    }
                }
            }
        }
        i = i + 1;
    }
    proof {
        assert(v@.take(i as int) =~= v@);
    }
    r
}

impl App {
    /// A fresh interface over the loaded settings; the settings dialog opens
    /// first when no settings file exists yet.
    pub fn new(config: SeetleConfig, config_exists: bool) -> (app: App)
        ensures
            app.modal == if config_exists {
                Modal::Closed
            } else {
                Modal::Config
            },
            !app.connected,
            app.keys@.len() == 0,
            app.selected_key is None,
            app.wrapper_selected == Some(
                match option_position(config.storage_wrapper@, |i: nat| wrapper_option(i)) {
                    Some(p) => p as usize,
                    None => 0usize,
                },
            ),
            app.backend_selected == Some(
                match option_position(config.root_backend@, |i: nat| backend_option(i)) {
                    Some(p) => p as usize,
                    None => 0usize,
                },
            ),
            app.active_field == 0,
            app.gen_account@ == "0"@,
            app.gen_index@ == "0"@,
            app.gen_account_options@ == seq![0u32],
            app.gen_alg_selected == Some(0usize),
            app.gen_context_selected == Some(0usize),
            app.verify_result is None,
            app.config == config,
            app.gen_id@ == Seq::<char>::empty(),
            app.sign_data@ == Seq::<char>::empty(),
            app.sign_result@ == Seq::<char>::empty(),
            app.verify_data@ == Seq::<char>::empty(),
            app.verify_sig@ == Seq::<char>::empty(),
            app.encrypt_data@ == Seq::<char>::empty(),
            app.encrypt_result@ == Seq::<char>::empty(),
            app.decrypt_data@ == Seq::<char>::empty(),
            app.decrypt_result@ == Seq::<char>::empty(),
            app.export_result@ == Seq::<char>::empty(),
            app.ecdh_peer_pub@ == Seq::<char>::empty(),
            app.ecdh_new_key_id@ == Seq::<char>::empty(),
            app.ecdh_result@ == Seq::<char>::empty(),
            app.hpke_peer_pub@ == Seq::<char>::empty(),
            app.hpke_info@ == Seq::<char>::empty(),
            app.hpke_result@ == Seq::<char>::empty(),
            app.hpke_combined_data@ == Seq::<char>::empty(),
            app.ecdh_selected is None,
            app.hpke_selected is None,
    {
        let wrapper = position_of(&config.storage_wrapper, "keyring", "tpm", "none");
        let backend = position_of(&config.root_backend, "keyring", "tpm", "mock");
        proof {
            reveal_strlit("keyring");
            reveal_strlit("tpm");
            reveal_strlit("none");
            reveal_strlit("mock");
        }
        let mut accounts: Vec<u32> = Vec::new();
        accounts.push(0);
        App {
            config,
            connected: false,
            keys: Vec::new(),
            selected_key: None,
            modal: if config_exists {
                Modal::Closed
            } else {
                Modal::Config
            },
            wrapper_selected: Some(
                match wrapper {
                    Some(p) => p,
                    None => 0,
                },
            ),
            backend_selected: Some(
                match backend {
                    Some(p) => p,
                    None => 0,
                },
            ),
            active_field: 0,
            gen_id: String::new(),
            gen_alg_selected: Some(0),
            gen_context_selected: Some(0),
            gen_account: String::from_str("0"),
            gen_account_options: accounts,
            gen_index: String::from_str("0"),
            sign_data: String::new(),
            sign_result: String::new(),
            verify_data: String::new(),
            verify_sig: String::new(),
            verify_result: None,
            encrypt_data: String::new(),
            encrypt_result: String::new(),
            decrypt_data: String::new(),
            decrypt_result: String::new(),
            export_result: String::new(),
            ecdh_peer_pub: String::new(),
            ecdh_new_key_id: String::new(),
            ecdh_result: String::new(),
            ecdh_selected: None,
            hpke_peer_pub: String::new(),
            hpke_info: String::new(),
            hpke_result: String::new(),
            hpke_combined_data: String::new(),
            hpke_selected: None,
        }
    }

    /// The stack must be set up: no dialog is open and it is not yet there.
    pub fn needs_setup(&self) -> (r: bool)
        ensures
            r == (self.modal is Closed && !self.connected),
    {
        let closed = match self.modal {
            Modal::Closed => true,
            _ => false,
        };
        closed && !self.connected
    }

    /// The stack is set up.
    pub fn setup_done(&mut self)
        ensures
            final(self).connected,
            final(self).modal == old(self).modal,
            final(self).keys == old(self).keys,
    {
        self.connected = true;
    }

    /// Setting up the stack failed with `message`, which is shown.
    pub fn setup_failed(&mut self, message: String)
        ensures
            final(self).modal == Modal::Error(message),
            final(self).connected == old(self).connected,
    {
        self.modal = Modal::Error(message);
    }

    /// The context chosen in the generation dialog.
    pub open spec fn chosen_context(&self) -> XhdContext {
        match self.gen_context_selected {
            Some(i) => context_option(i as nat),
            None => XhdContext::Address,
        }
    }

    /// Suggests the next free index in the chosen context and account.
    pub fn update_suggested_index(&mut self)
        requires
            indices_bounded(old(self).keys@),
        ensures
            same_choices(*old(self), *final(self)),
            final(self).gen_index@ == decimal(
                (max_slot_index(
                    old(self).keys@,
                    context_name(old(self).chosen_context()),
                    account_value(old(self).gen_account@),
                ) + 1) as nat,
            ),
            final(self).keys == old(self).keys,
            final(self).modal == old(self).modal,
            final(self).gen_account == old(self).gen_account,
            final(self).gen_context_selected == old(self).gen_context_selected,
            final(self).gen_account_options == old(self).gen_account_options,
            final(self).selected_key == old(self).selected_key,
            final(self).active_field == old(self).active_field,
            final(self).gen_id == old(self).gen_id,
            final(self).connected == old(self).connected,
    {
        let context = match self.gen_context_selected {
            Some(i) => if i == 0 {
                XhdContext::Address
            } else {
                XhdContext::Identity
            },
            None => XhdContext::Address,
        };
        let ctx = String::from_str(crate::backends::xhd::context_str(context));
        let account = parse_or_zero(&self.gen_account);
        let ghost ks = self.keys@;
        let mut max_index: i64 = -1;
        let mut i: usize = 0;
        while i < self.keys.len()
            invariant
                i <= ks.len(),
                ks == self.keys@,
                ctx@ == context_name(context),
                max_index == max_slot_index(ks.take(i as int), ctx@, account),
            decreases ks.len() - i,
        {
            let k = &self.keys[i];
            proof {
                assert(ks.take(i + 1).drop_last() =~= ks.take(i as int));
                assert(ks.take(i + 1).last() == ks[i as int]);
            }
            let matches = match &k.context {
                Some(c) => *c == ctx && k.account == Some(account),
                None => false,
            };
            if matches {
                match k.index {
                    Some(idx) => {
                        let v: i64 = if idx < 0x8000_0000 {
                            idx as i64
                        } else {
                            idx as i64 - 0x1_0000_0000
                        };
                        if v > max_index {
                            max_index = v;
                        }
                    },
                    None => {},
                }
            }
            i = i + 1;
        }
        proof {
            assert(ks.take(i as int) =~= ks);
            lemma_max_slot_index_bounds(ks, ctx@, account);
        }
        self.gen_index = u32_to_string((max_index + 1) as u32);
    }

    /// Collects the accounts the keys use (always offering account 0),
    /// ascending, then suggests the next index.
    pub fn update_xhd_defaults(&mut self)
        requires
            indices_bounded(old(self).keys@),
        ensures
            same_choices(*old(self), *final(self)),
            ascending(final(self).gen_account_options@),
            distinct(final(self).gen_account_options@),
            forall|a: u32| #[trigger] final(self).gen_account_options@.contains(a) <==> seen_accounts(
                old(self).keys@,
            ).contains(a),
            final(self).gen_context_selected == if old(self).gen_context_selected is None {
                Some(0usize)
            } else {
                old(self).gen_context_selected
            },
            final(self).gen_index@ == decimal(
                (max_slot_index(
                    old(self).keys@,
                    context_name(final(self).chosen_context()),
                    account_value(old(self).gen_account@),
                ) + 1) as nat,
            ),
            final(self).keys == old(self).keys,
            final(self).modal == old(self).modal,
            final(self).gen_account == old(self).gen_account,
            final(self).selected_key == old(self).selected_key,
            final(self).active_field == old(self).active_field,
            final(self).gen_id == old(self).gen_id,
            final(self).connected == old(self).connected,
    {
        let mut accounts: Vec<u32> = Vec::new();
        accounts.push(0);
        let ghost ks = self.keys@;
        let mut i: usize = 0;
        while i < self.keys.len()
            invariant
                i <= ks.len(),
                ks == self.keys@,
                accounts@ == seen_accounts(ks.take(i as int)),
                distinct(accounts@),
            decreases ks.len() - i,
        {
            proof {
                assert(ks.take(i + 1).drop_last() =~= ks.take(i as int));
                assert(ks.take(i + 1).last() == ks[i as int]);
            }
            match self.keys[i].account {
                Some(a) => {
                    let mut found = false;
                    let mut j: usize = 0;
                    while j < accounts.len()
                        invariant
                            j <= accounts@.len(),
                            found == exists|k: int| 0 <= k < j && accounts@[k] == a,
                        decreases accounts@.len() - j,
                    {
                        if accounts[j] == a {
                            found = true;
                        }
                        j = j + 1;
                    }
                    if !found {
                        proof {
                            assert(!accounts@.contains(a));
                        }
                        accounts.push(a);
                    } else {
                        proof {
                            let k = choose|k: int| 0 <= k < j && accounts@[k] == a;
                            assert(accounts@.contains(a));
                        }
                    }
                },
                None => {},
            }
            i = i + 1;
        }
        proof {
            assert(ks.take(i as int) =~= ks);
        }
        self.gen_account_options = sort_u32(accounts);
        if self.gen_context_selected.is_none() {
            self.gen_context_selected = Some(0);
        }
        self.update_suggested_index();
    }

    /// Selects the next key, wrapping around.
    pub fn next_key(&mut self)
        ensures
            final(self).active_field == old(self).active_field,
            final(self).gen_context_selected == old(self).gen_context_selected,
            final(self).gen_account_options == old(self).gen_account_options,
            same_choices(*old(self), *final(self)),
            old(self).keys@.len() == 0 ==> final(self).selected_key == old(self).selected_key,
            old(self).keys@.len() > 0 ==> final(self).selected_key == Some(
                cycle_next(old(self).selected_key, old(self).keys@.len()) as usize,
            ),
            final(self).keys == old(self).keys,
            final(self).modal == old(self).modal,
    {
        if self.keys.len() == 0 {
            return ;
        }
        self.selected_key = Some(next_index(self.selected_key, self.keys.len()));
    }

    /// Selects the previous key, wrapping around.
    pub fn previous_key(&mut self)
        requires
            old(self).selected_key matches Some(i) ==> i < old(self).keys@.len(),
        ensures
            final(self).active_field == old(self).active_field,
            final(self).gen_context_selected == old(self).gen_context_selected,
            final(self).gen_account_options == old(self).gen_account_options,
            same_choices(*old(self), *final(self)),
            old(self).keys@.len() == 0 ==> final(self).selected_key == old(self).selected_key,
            old(self).keys@.len() > 0 ==> final(self).selected_key == Some(
                cycle_prev(old(self).selected_key, old(self).keys@.len()) as usize,
            ),
            final(self).keys == old(self).keys,
            final(self).modal == old(self).modal,
    {
        if self.keys.len() == 0 {
            return ;
        }
        self.selected_key = Some(prev_index(self.selected_key, self.keys.len()));
    }

    /// Moves down the active list of the settings dialog.
    pub fn next_config(&mut self)
        ensures
            final(self).keys == old(self).keys,
            final(self).selected_key == old(self).selected_key,
            final(self).ecdh_selected == old(self).ecdh_selected,
            final(self).hpke_selected == old(self).hpke_selected,
            final(self).gen_alg_selected == old(self).gen_alg_selected,
            final(self).gen_context_selected == old(self).gen_context_selected,
            final(self).gen_account_options == old(self).gen_account_options,
            old(self).active_field == 0 ==> final(self).wrapper_selected == Some(
                cycle_next(old(self).wrapper_selected, 3) as usize,
            ) && final(self).backend_selected == old(self).backend_selected,
            old(self).active_field != 0 ==> final(self).backend_selected == Some(
                cycle_next(old(self).backend_selected, 3) as usize,
            ) && final(self).wrapper_selected == old(self).wrapper_selected,
            final(self).modal == old(self).modal,
            final(self).active_field == old(self).active_field,
            final(self).config == old(self).config,
    {
        if self.active_field == 0 {
            self.wrapper_selected = Some(next_index(self.wrapper_selected, CONFIG_OPTIONS));
        } else {
            self.backend_selected = Some(next_index(self.backend_selected, CONFIG_OPTIONS));
        }
    }

    /// Moves up the active list of the settings dialog.
    pub fn previous_config(&mut self)
        requires
            old(self).wrapper_selected matches Some(i) ==> i < 3,
            old(self).backend_selected matches Some(i) ==> i < 3,
        ensures
            final(self).keys == old(self).keys,
            final(self).selected_key == old(self).selected_key,
            final(self).ecdh_selected == old(self).ecdh_selected,
            final(self).hpke_selected == old(self).hpke_selected,
            final(self).gen_alg_selected == old(self).gen_alg_selected,
            final(self).gen_context_selected == old(self).gen_context_selected,
            final(self).gen_account_options == old(self).gen_account_options,
            old(self).active_field == 0 ==> final(self).wrapper_selected == Some(
                cycle_prev(old(self).wrapper_selected, 3) as usize,
            ) && final(self).backend_selected == old(self).backend_selected,
            old(self).active_field != 0 ==> final(self).backend_selected == Some(
                cycle_prev(old(self).backend_selected, 3) as usize,
            ) && final(self).wrapper_selected == old(self).wrapper_selected,
            final(self).modal == old(self).modal,
            final(self).active_field == old(self).active_field,
            final(self).config == old(self).config,
    {
        if self.active_field == 0 {
            self.wrapper_selected = Some(prev_index(self.wrapper_selected, CONFIG_OPTIONS));
        } else {
            self.backend_selected = Some(prev_index(self.backend_selected, CONFIG_OPTIONS));
        }
    }
}

} // verus!

verus! {

/// The texts of a list of strings.
pub open spec fn texts(v: Seq<String>) -> Seq<Seq<char>> {
    v.map_values(|s: String| s@)
}

/// Whether `a` sorts before `b` or equals it, comparing characters one by
/// one (the order of `String`).
pub open spec fn text_le(a: Seq<char>, b: Seq<char>) -> bool
    decreases a.len(),
{
    if a.len() == 0 {
        true
    } else if b.len() == 0 {
        false
    } else if (a[0] as u32) != (b[0] as u32) {
        (a[0] as u32) < (b[0] as u32)
    } else {
        text_le(a.drop_first(), b.drop_first())
    }
}

proof fn lemma_text_le_total(a: Seq<char>, b: Seq<char>)
    ensures
        text_le(a, b) || text_le(b, a),
    decreases a.len(),
{
    if a.len() > 0 && b.len() > 0 && (a[0] as u32) == (b[0] as u32) {
        lemma_text_le_total(a.drop_first(), b.drop_first());
    }
}

proof fn lemma_text_le_trans(a: Seq<char>, b: Seq<char>, c: Seq<char>)
    requires
        text_le(a, b),
        text_le(b, c),
    ensures
        text_le(a, c),
    decreases a.len(),
{
    if a.len() > 0 && b.len() > 0 && c.len() > 0 && (a[0] as u32) == (b[0] as u32) && (b[0] as u32)
        == (c[0] as u32) {
        lemma_text_le_trans(a.drop_first(), b.drop_first(), c.drop_first());
    }
}

/// Texts in ascending order.
pub open spec fn texts_ascending(s: Seq<Seq<char>>) -> bool {
    forall|i: int, j: int| 0 <= i < j < s.len() ==> text_le(s[i], s[j])
}

fn text_le_exec(a: &str, b: &str) -> (r: bool)
    ensures
        r == text_le(a@, b@),
{
    let x = chars_of(a);
    let y = chars_of(b);
    let mut i: usize = 0;
    assert(a@.skip(0) =~= a@);
    assert(b@.skip(0) =~= b@);
    while i < x.len() && i < y.len() && (x[i] as u32) == (y[i] as u32)
        invariant
            x@ == a@,
            y@ == b@,
            i <= x@.len(),
            i <= y@.len(),
            text_le(a@, b@) == text_le(a@.skip(i as int), b@.skip(i as int)),
        decreases x@.len() - i,
    {
        proof {
            assert(a@.skip(i as int).drop_first() =~= a@.skip(i + 1));
            assert(b@.skip(i as int).drop_first() =~= b@.skip(i + 1));
        }
        i = i + 1;
    }
    if i == x.len() {
        true
    } else if i == y.len() {
        false
    } else {
        (x[i] as u32) < (y[i] as u32)
    }
}

/// Sorts texts in ascending order.
fn sort_texts(v: Vec<String>) -> (r: Vec<String>)
    ensures
        r@.len() == v@.len(),
        texts_ascending(texts(r@)),
        forall|t: Seq<char>| #[trigger] texts(v@).contains(t) <==> texts(r@).contains(t),
{
    let ghost vv = texts(v@);
    let mut r: Vec<String> = Vec::new();
    let mut i: usize = 0;
    while i < v.len()
        invariant
            i <= v@.len(),
            vv == texts(v@),
            r@.len() == i,
            texts_ascending(texts(r@)),
            forall|t: Seq<char>| #[trigger] vv.take(i as int).contains(t) <==> texts(r@).contains(t),
        decreases v@.len() - i,
    {
        let x = v[i].clone();
        let ghost rv = texts(r@);
        let mut j: usize = 0;
        while j < r.len() && text_le_exec(r[j].as_str(), x.as_str())
            invariant
                j <= r@.len(),
                rv == texts(r@),
                forall|k: int| 0 <= k < j ==> text_le(rv[k], x@),
            decreases r@.len() - j,
        {
            j = j + 1;
        }
        assert(forall|t: Seq<char>| vv.take(i as int).contains(t) <==> rv.contains(t));
        r.insert(j, x);
        let ghost nv = texts(r@);
        proof {
            assert(nv =~= rv.take(j as int).push(x@) + rv.skip(j as int));
            if j < rv.len() {
                lemma_text_le_total(rv[j as int], x@);
            }
            assert forall|a: int, b: int| 0 <= a < b < nv.len() implies text_le(nv[a], nv[b]) by {
                if b < j {
                } else if b == j {
                } else if a < j {
                    lemma_text_le_trans(rv[a], x@, rv[j as int]);
                    if b - 1 > j {
                        lemma_text_le_trans(rv[a], rv[j as int], rv[b - 1]);
                    }
                } else if a == j {
                    if b - 1 > j {
                        lemma_text_le_trans(x@, rv[j as int], rv[b - 1]);
                    }
                } else {
                }
            }
            assert forall|y: Seq<char>| nv.contains(y) <==> (rv.contains(y) || y == x@) by {
                if nv.contains(y) {
                    let k = choose|k: int| 0 <= k < nv.len() && #[trigger] nv[k] == y;
                    if k < j {
                        assert(rv[k] == y);
                    } else if k > j {
                        assert(rv[k - 1] == y);
                    }
                }
                if rv.contains(y) {
                    let k = choose|k: int| 0 <= k < rv.len() && #[trigger] rv[k] == y;
                    if k < j {
                        assert(nv[k] == y);
                    } else {
                        assert(nv[k + 1] == y);
                    }
                }
                if y == x@ {
                    assert(nv[j as int] == y);
                }
            }
            assert forall|y: Seq<char>| vv.take(i + 1).contains(y) <==> (vv.take(i as int).contains(y)
                || y == x@) by {
                let vt = vv.take(i + 1);
                let vs = vv.take(i as int);
                if vt.contains(y) {
                    let k = choose|k: int| 0 <= k < vt.len() && #[trigger] vt[k] == y;
                    if k < i {
                        assert(vs[k] == y);
                    }
                }
                if vs.contains(y) {
                    let k = choose|k: int| 0 <= k < vs.len() && #[trigger] vs[k] == y;
                    assert(vt[k] == y);
                }
                if y == x@ {
                    assert(vt[i as int] == x@);
                }
            }
            assert forall|t: Seq<char>| #[trigger] vv.take(i + 1).contains(t) <==> nv.contains(t) by {
                assert(vv.take(i as int).contains(t) <==> rv.contains(t));
            }
        }
        i = i + 1;
    }
    proof {
        assert(vv.take(i as int) =~= vv);
    }
    r
}

/// The keys the interface describes: the listed ones with the master seed
/// added when missing, sorted.
pub fn keys_to_describe(ids: Vec<String>) -> (r: Vec<String>)
    ensures
        texts_ascending(texts(r@)),
        forall|t: Seq<char>| #[trigger] texts(r@).contains(t) <==> (texts(ids@).contains(t) || t == master_seed_name()),
        r@.len() == if texts(ids@).contains(master_seed_name()) {
            ids@.len()
        } else {
            ids@.len() + 1
        },
{
    let ghost before = texts(ids@);
    let master = master_seed_id();
    let mut all = ids;
    let mut found = false;
    let mut i: usize = 0;
    while i < all.len()
        invariant
            i <= all@.len(),
            before == texts(all@),
            master@ == master_seed_name(),
            found == exists|k: int| 0 <= k < i && all@[k]@ == master_seed_name(),
        decreases all@.len() - i,
    {
        if all[i] == master {
            found = true;
        }
        i = i + 1;
    }
    proof {
        if found {
            let k = choose|k: int| 0 <= k < i && all@[k]@ == master_seed_name();
            assert(before[k] == master_seed_name());
            assert(before.contains(master_seed_name()));
        } else {
            assert forall|k: int| 0 <= k < before.len() implies before[k] != master_seed_name() by {
                assert(before[k] == all@[k]@);
            }
        }
    }
    if !found {
        all.push(master);
        proof {
            let after = texts(all@);
            assert(after =~= before.push(master_seed_name()));
            assert forall|t: Seq<char>| after.contains(t) <==> (before.contains(t) || t
                == master_seed_name()) by {
                if after.contains(t) {
                    let k = choose|k: int| 0 <= k < after.len() && #[trigger] after[k] == t;
                    if k < before.len() {
                        assert(before[k] == t);
                    }
                }
                if before.contains(t) {
                    let k = choose|k: int| 0 <= k < before.len() && #[trigger] before[k] == t;
                    assert(after[k] == t);
                }
                if t == master_seed_name() {
                    assert(after[before.len() as int] == t);
                }
            }
        }
    }
    let ghost grown = texts(all@);
    assert(forall|t: Seq<char>| grown.contains(t) <==> (before.contains(t) || t == master_seed_name()));
    let r = sort_texts(all);
    assert forall|t: Seq<char>| #[trigger] texts(r@).contains(t) <==> (before.contains(t) || t
        == master_seed_name()) by {
        assert(grown.contains(t) <==> texts(r@).contains(t));
    }
    r
}

/// What the interface shows for a key whose metadata could not be read:
/// the master seed as a hardware-bound, extractable seed for bit
/// derivation; any other key by its identifier alone.
pub fn fallback_metadata(identifier: String) -> (m: KeyMetadata)
    ensures
        m.identifier == identifier,
        m.public_key is None,
        m.context is None,
        m.account is None,
        m.index is None,
        m.derivation is None,
        m.source_key_identifier is None,
        m.master_seed is None,
        m.seed_exportable is None,
        if identifier@ == master_seed_name() {
            m.algorithm@ == "MasterSeed (Hardware-backed)"@ && m.usages@ == seq![
                KeyUsage::DeriveBits,
            ] && m.hardware_bound == HardwareBound::Yes && m.extractable
        } else {
            m.algorithm@.len() == 0 && m.usages@.len() == 0 && m.hardware_bound
                == HardwareBound::No && !m.extractable
        },
{
    let is_master = identifier == master_seed_id();
    let mut usages: Vec<KeyUsage> = Vec::new();
    if is_master {
        usages.push(KeyUsage::DeriveBits);
        assert(usages@ =~= seq![KeyUsage::DeriveBits]);
    }
    KeyMetadata {
        identifier,
        algorithm: if is_master {
            String::from_str("MasterSeed (Hardware-backed)")
        } else {
            String::new()
        },
        usages,
        hardware_bound: if is_master {
            HardwareBound::Yes
        } else {
            HardwareBound::No
        },
        extractable: is_master,
        public_key: None,
        context: None,
        account: None,
        index: None,
        derivation: None,
        source_key_identifier: None,
        master_seed: None,
        seed_exportable: None,
    }
}

} // verus!

verus! {

/// Whether a character is an ASCII decimal digit.
pub open spec fn is_digit(c: char) -> bool {
    '0' <= c <= '9'
}

fn clamp_selection(sel: Option<usize>, len: usize) -> (r: Option<usize>)
    ensures
        r == match sel {
            Some(i) => if i < len {
                Some(i)
            } else if len > 0 {
                Some((len - 1) as usize)
            } else {
                None
            },
            None => None,
        },
{
    match sel {
        Some(i) => if i < len {
            Some(i)
        } else if len > 0 {
            Some(len - 1)
        } else {
            None
        },
        None => None,
    }
}

/// The name of the algorithm the generation dialog asks for: an xHD path
/// in the chosen context, account and index, with the Peikert scheme.
pub open spec fn generation_name(app: App) -> Seq<char> {
    xhd_name(
        app.chosen_context(),
        account_value(app.gen_account@),
        account_value(app.gen_index@),
        XhdScheme::Peikert,
    )
}

/// The keys the main screen acts on.
pub open spec fn main_key_handled(code: KeyCode) -> bool {
    ||| code == KeyCode::Down
    ||| code == KeyCode::Up
    ||| code matches KeyCode::Char(c) && (c == 'q' || c == 'r' || c == 'g' || c == 's' || c == 'v'
        || c == 'e' || c == 'x' || c == 'X' || c == 'a' || c == 'h' || c == 'o' || c == 'd')
}

/// What a key press does in the main screen: the new state
/// `n` and the action `a` from the state `o`.
pub open spec fn main_key_step(o: App, n: App, key: KeyInput, a: Action) -> bool {
    &&& (key.code == KeyCode::Char('q') ==> a is Quit)
    &&& (key.code == KeyCode::Char('r') ==> a is Refresh)
    &&& (key.code == KeyCode::Down ==> n.selected_key == if o.keys@.len() == 0 { o.selected_key }
        else { Some(cycle_next(o.selected_key, o.keys@.len()) as usize) })
    &&& (key.code == KeyCode::Up ==> n.selected_key == if o.keys@.len() == 0 { o.selected_key } else
        { Some(cycle_prev(o.selected_key, o.keys@.len()) as usize) })
    &&& (key.code == KeyCode::Char('g') ==> n.modal is GenerateKey && n.gen_id@.len() == 0 &&
        n.gen_account@ == "0"@ && n.gen_context_selected == Some(0usize) && n.active_field == 0)
    &&& (key.code == KeyCode::Char('s') ==> (if o.selected_key is Some { n.modal is SignData &&
        n.sign_data@.len() == 0 && n.sign_result@.len() == 0 } else { n.modal is Closed }))
    &&& (key.code == KeyCode::Char('v') ==> (if o.selected_key is Some { n.modal is VerifySignature
        && n.verify_result is None && n.active_field == 0 } else { n.modal is Closed }))
    &&& (key.code == KeyCode::Char('X') ==> (match o.selected_key { Some(i) => if o.keys@[i as
        int].extractable { n.modal is ExportKey && (a matches Action::Export { identifier } &&
        identifier@ == o.keys@[i as int].identifier@) } else { n.modal is Closed && a is Nothing
        }, None => n.modal is Closed && a is Nothing }))
    &&& (key.code == KeyCode::Char('d') ==> (match o.selected_key { Some(i) => n.modal matches
        Modal::DeleteConfirmation(id) && id@ == o.keys@[i as int].identifier@, None => n.modal
        is Closed }))
    &&& (!(key.code == KeyCode::Char('q') || key.code == KeyCode::Char('r') || key.code
        == KeyCode::Char('X')) ==> a is Nothing)
    &&& (key.code == KeyCode::Down || key.code == KeyCode::Up || key.code == KeyCode::Char('r')
        ==> n.modal == o.modal)
    &&& (key.code == KeyCode::Char('e') ==> (if o.selected_key is Some { n.modal is EncryptData
        && n.encrypt_data@.len() == 0 && n.encrypt_result@.len() == 0 } else { n.modal is Closed }))
    &&& (key.code == KeyCode::Char('x') ==> (if o.selected_key is Some { n.modal is DecryptData
        && n.decrypt_data@.len() == 0 && n.decrypt_result@.len() == 0 } else { n.modal is Closed }))
    &&& (key.code == KeyCode::Char('a') ==> (if o.selected_key is Some { n.modal is Ecdh
        && n.ecdh_peer_pub@.len() == 0 && n.ecdh_new_key_id@.len() == 0 && n.ecdh_result@.len()
        == 0 && n.ecdh_selected == Some(0usize) && n.active_field == 0 } else { n.modal is Closed }))
    &&& (key.code == KeyCode::Char('h') ==> (if o.selected_key is Some { n.modal is HpkeSeal
        && n.hpke_peer_pub@.len() == 0 && n.hpke_info@.len() == 0 && n.hpke_result@.len() == 0
        && n.hpke_selected == Some(0usize) && n.active_field == 0 } else { n.modal is Closed }))
    &&& (key.code == KeyCode::Char('o') ==> (if o.selected_key is Some { n.modal is HpkeOpen
        && n.hpke_info@.len() == 0 && n.hpke_result@.len() == 0 && n.hpke_combined_data@.len()
        == 0 && n.active_field == 0 } else { n.modal is Closed }))
    &&& (!main_key_handled(key.code) ==> n == o)
}

/// What a key press does in the config dialog: the new state
/// `n` and the action `a` from the state `o`.
pub open spec fn config_key_step(o: App, n: App, key: KeyInput, a: Action) -> bool {
    &&& (n.modal == o.modal)
    &&& (key.code == KeyCode::Char('q') ==> a is Quit)
    &&& (key.code == KeyCode::Tab ==> n.active_field == (o.active_field + 1) % 2)
    &&& (key.code == KeyCode::Enter ==> a is SaveConfig && n.config.storage_wrapper@ ==
        wrapper_option( match o.wrapper_selected { Some(i) => i as nat, None => 0 }, ) &&
        n.config.root_backend@ == backend_option( match o.backend_selected { Some(i) => i as
        nat, None => 0 }, ))
    &&& (!(key.code == KeyCode::Char('q') || key.code == KeyCode::Enter) ==> a is Nothing)
}

/// What a key press does in the generate dialog: the new state
/// `n` and the action `a` from the state `o`.
pub open spec fn generate_key_step(o: App, n: App, key: KeyInput, a: Action) -> bool {
    &&& (!(a is Quit))
    &&& (key.code == KeyCode::Esc ==> n.modal is Closed && a is Nothing)
    &&& (key.code == KeyCode::Tab ==> n.active_field == (o.active_field + 1) % 5)
    &&& (key.code matches KeyCode::Char(c) ==> ((o.active_field == 0) ==> n.gen_id@ ==
        o.gen_id@.push(c)))
    &&& (key.code matches KeyCode::Char(c) ==> ((o.active_field == 3 && is_digit(c)) ==>
        n.gen_account@ == o.gen_account@.push(c)))
    &&& (key.code matches KeyCode::Char(c) ==> ((o.active_field == 3 && !is_digit(c)) ==>
        n.gen_account == o.gen_account))
    &&& (key.code == KeyCode::Enter && o.gen_id@.len() > 0 ==> n.modal is Closed && (a matches
        Action::Generate { algorithm, bindings, usages } && (algorithm matches
        Algorithm::Ed25519 { name } && name@ == generation_name(o)) && bindings.identifier@ ==
        o.gen_id@ && bindings.hardware_bound == HardwareBound::Yes && !bindings.extractable &&
        !bindings.updatable && bindings.origin_bindings@.len() == 0 && usages@ == seq![
        KeyUsage::Sign, KeyUsage::Verify, ]))
    &&& (key.code == KeyCode::Enter && o.gen_id@.len() == 0 ==> a is Nothing && n.modal == o.modal)
    &&& (key.code != KeyCode::Esc && key.code != KeyCode::Enter ==> a is Nothing && n.modal
        == o.modal)
}

/// What a key press does in the sign dialog: the new state
/// `n` and the action `a` from the state `o`.
pub open spec fn sign_key_step(o: App, n: App, key: KeyInput, a: Action) -> bool {
    &&& (!(a is Quit))
    &&& (key.code == KeyCode::Esc ==> n.modal is Closed)
    &&& (key.code == KeyCode::Char('c') && key.control ==> (if o.sign_result@.len() > 0 { a matches
        Action::Copy(t) && t@ == o.sign_result@ } else { a is Nothing }) && n.sign_data ==
        o.sign_data)
    &&& (key.code matches KeyCode::Char(c) ==> ((!(c == 'c' && key.control)) ==> n.sign_data@ ==
        o.sign_data@.push(c)))
    &&& (key.code == KeyCode::Enter ==> match o.selected_key { Some(i) => a matches Action::Sign {
        identifier, algorithm, data } && identifier@ == o.keys@[i as int].identifier@ && data@
        == utf8_encoding(o.sign_data@) && (algorithm matches Algorithm::Ed25519 { name } &&
        name@ == "Ed25519"@), None => a is Nothing })
    &&& (key.code == KeyCode::Esc ==> a is Nothing)
    &&& (key.code != KeyCode::Esc ==> n.modal == o.modal)
    &&& (!(key.code == KeyCode::Enter || (key.code == KeyCode::Char('c') && key.control)) ==> a is Nothing)
}

/// What a key press does in the verify dialog: the new state
/// `n` and the action `a` from the state `o`.
pub open spec fn verify_key_step(o: App, n: App, key: KeyInput, a: Action) -> bool {
    &&& (!(a is Quit))
    &&& (key.code == KeyCode::Esc ==> n.modal is Closed)
    &&& (key.code == KeyCode::Enter && o.verify_result is Some ==> n.modal is Closed &&
        n.verify_result is None && a is Nothing)
    &&& (key.code == KeyCode::Enter && o.verify_result is None ==> match o.selected_key { Some(i) =>
        match hex_decoding(o.verify_sig@) { Some(sig) => a matches Action::Verify { identifier,
        signature, data, .. } && identifier@ == o.keys@[i as int].identifier@ && signature@ ==
        sig && data@ == utf8_encoding(o.verify_data@), None => a is Nothing }, None => a is
        Nothing })
    &&& (key.code matches KeyCode::Char(c) ==> ((o.verify_result is None && o.active_field == 0) ==>
        n.verify_data@ == o.verify_data@.push(c)))
    &&& (key.code matches KeyCode::Char(c) ==> ((o.verify_result is None && o.active_field != 0) ==>
        n.verify_sig@ == o.verify_sig@.push(c)))
    &&& (key.code == KeyCode::Esc ==> a is Nothing)
    &&& (key.code != KeyCode::Esc && !(key.code == KeyCode::Enter && o.verify_result is Some) ==>
        n.modal == o.modal)
    &&& (key.code != KeyCode::Enter ==> a is Nothing)
}

/// What a key press does in the encrypt dialog: the new state
/// `n` and the action `a` from the state `o`.
pub open spec fn encrypt_key_step(o: App, n: App, key: KeyInput, a: Action) -> bool {
    &&& (!(a is Quit))
    &&& (key.code == KeyCode::Esc ==> n.modal is Closed)
    &&& (key.code == KeyCode::Char('c') && key.control ==> (if o.encrypt_result@.len() > 0 { a
        matches Action::Copy(t) && t@ == o.encrypt_result@ } else { a is Nothing }))
    &&& (key.code == KeyCode::Enter ==> match o.selected_key { Some(i) => a matches Action::Encrypt
        { identifier, algorithm, data } && identifier@ == o.keys@[i as int].identifier@ && data@
        == utf8_encoding(o.encrypt_data@) && is_aes_request(algorithm), None => a is Nothing })
    &&& (key.code == KeyCode::Esc ==> a is Nothing)
    &&& (key.code != KeyCode::Esc ==> n.modal == o.modal)
    &&& (!(key.code == KeyCode::Enter || (key.code == KeyCode::Char('c') && key.control)) ==> a is Nothing)
}

/// What a key press does in the decrypt dialog: the new state
/// `n` and the action `a` from the state `o`.
pub open spec fn decrypt_key_step(o: App, n: App, key: KeyInput, a: Action) -> bool {
    &&& (!(a is Quit))
    &&& (key.code == KeyCode::Esc ==> n.modal is Closed)
    &&& (key.code == KeyCode::Char('c') && key.control ==> (if o.decrypt_result@.len() > 0 { a
        matches Action::Copy(t) && t@ == o.decrypt_result@ } else { a is Nothing }))
    &&& (key.code == KeyCode::Enter ==> match o.selected_key { Some(i) => match
        hex_decoding(o.decrypt_data@) { Some(d) => a matches Action::Decrypt { identifier,
        algorithm, data } && identifier@ == o.keys@[i as int].identifier@ && data@ == d &&
        is_aes_request(algorithm), None => a is Nothing }, None => a is Nothing })
    &&& (key.code == KeyCode::Esc ==> a is Nothing)
    &&& (key.code != KeyCode::Esc ==> n.modal == o.modal)
    &&& (!(key.code == KeyCode::Enter || (key.code == KeyCode::Char('c') && key.control)) ==> a is Nothing)
}

/// What a key press does in the ecdh dialog: the new state
/// `n` and the action `a` from the state `o`.
pub open spec fn ecdh_key_step(o: App, n: App, key: KeyInput, a: Action) -> bool {
    &&& (!(a is Quit))
    &&& (key.code == KeyCode::Esc ==> n.modal is Closed)
    &&& (key.code == KeyCode::Tab ==> n.active_field == (o.active_field + 1) % 3)
    &&& (key.code == KeyCode::Enter && o.active_field == 2 ==> a is Nothing && match
        picked_public_key(o.keys@, o.ecdh_selected) { Some(pk) => n.ecdh_peer_pub@ == pk &&
        n.active_field == 0, None => n.ecdh_peer_pub == o.ecdh_peer_pub })
    &&& (key.code == KeyCode::Enter && o.active_field != 2 ==> match o.selected_key { Some(i) =>
        match hex_decoding(o.ecdh_peer_pub@) { Some(peer) => a matches Action::DeriveBits {
        identifier, algorithm, length, refresh } && identifier@ == o.keys@[i as int].identifier@
        && length == 256 && refresh == (o.ecdh_new_key_id@.len() > 0) && ( algorithm matches
        Algorithm::Ecdh { name, public_key } && name@ == ecdh_request_name(o.ecdh_new_key_id@)
        && public_key@ == peer), None => a is Nothing }, None => a is Nothing })
    &&& (key.code == KeyCode::Esc ==> a is Nothing)
    &&& (key.code != KeyCode::Esc ==> n.modal == o.modal)
    &&& (!(key.code == KeyCode::Enter || (key.code == KeyCode::Char('c') && key.control)) ==> a is Nothing)
}

/// What a key press does in the hpke seal dialog: the new state
/// `n` and the action `a` from the state `o`.
pub open spec fn hpke_seal_key_step(o: App, n: App, key: KeyInput, a: Action) -> bool {
    &&& (!(a is Quit))
    &&& (key.code == KeyCode::Esc ==> n.modal is Closed)
    &&& (key.code == KeyCode::Tab ==> n.active_field == (o.active_field + 1) % 4)
    &&& (key.code == KeyCode::Enter && o.active_field == 3 ==> a is Nothing && match
        picked_public_key(o.keys@, o.hpke_selected) { Some(pk) => n.hpke_peer_pub@ == pk &&
        n.active_field == 0, None => n.hpke_peer_pub == o.hpke_peer_pub })
    &&& (key.code == KeyCode::Enter && o.active_field != 3 ==> match hex_decoding(o.hpke_peer_pub@)
        { Some(peer) => a matches Action::HpkeSeal { key: k, algorithm, data } && (k matches
        KeyOrIdentifier::Identifier(id) && id@ == "ignored"@) && is_hpke_request( algorithm,
        Some(peer), utf8_encoding(o.hpke_info@), ) && data@ == utf8_encoding(o.encrypt_data@),
        None => a is Nothing })
    &&& (key.code == KeyCode::Esc ==> a is Nothing)
    &&& (key.code != KeyCode::Esc ==> n.modal == o.modal)
    &&& (!(key.code == KeyCode::Enter || (key.code == KeyCode::Char('c') && key.control)) ==> a is Nothing)
}

/// What a key press does in the hpke open dialog: the new state
/// `n` and the action `a` from the state `o`.
pub open spec fn hpke_open_key_step(o: App, n: App, key: KeyInput, a: Action) -> bool {
    &&& (!(a is Quit))
    &&& (key.code == KeyCode::Esc ==> n.modal is Closed)
    &&& (key.code == KeyCode::Tab ==> n.active_field == (o.active_field + 1) % 2)
    &&& (key.code == KeyCode::Enter ==> match o.selected_key { Some(i) => match
        hex_decoding(o.hpke_combined_data@) { Some(d) => a matches Action::HpkeOpen {
        identifier, algorithm, data } && identifier@ == o.keys@[i as int].identifier@ && data@
        == d && is_hpke_request( algorithm, None, utf8_encoding(o.hpke_info@), ), None => a is
        Nothing }, None => a is Nothing })
    &&& (key.code == KeyCode::Esc ==> a is Nothing)
    &&& (key.code != KeyCode::Esc ==> n.modal == o.modal)
    &&& (!(key.code == KeyCode::Enter || (key.code == KeyCode::Char('c') && key.control)) ==> a is Nothing)
}

/// What a key press does in the export dialog: the new state
/// `n` and the action `a` from the state `o`.
pub open spec fn export_key_step(o: App, n: App, key: KeyInput, a: Action) -> bool {
    &&& (!(a is Quit))
    &&& (key.code == KeyCode::Esc || key.code == KeyCode::Enter ==> n.modal is Closed && a is
        Nothing)
    &&& (key.code == KeyCode::Char('c') && key.control ==> (if o.export_result@.len() > 0 { a
        matches Action::Copy(t) && t@ == o.export_result@ } else { a is Nothing }))
    &&& (!(key.code == KeyCode::Esc || key.code == KeyCode::Enter) ==> n.modal == o.modal)
    &&& (!(key.code == KeyCode::Char('c') && key.control) ==> a is Nothing)
}

/// What a key press does in the error dialog: the new state
/// `n` and the action `a` from the state `o`.
pub open spec fn error_key_step(o: App, n: App, key: KeyInput, a: Action) -> bool {
    &&& (a is Nothing)
    &&& (key.code == KeyCode::Esc || key.code == KeyCode::Enter ==> n.modal is Closed)
    &&& (!(key.code == KeyCode::Esc || key.code == KeyCode::Enter) ==> n.modal == o.modal)
}

/// What a key press does in the delete dialog: the new state
/// `n` and the action `a` from the state `o`.
pub open spec fn delete_key_step(o: App, n: App, key: KeyInput, a: Action, identifier: String) -> bool {
    &&& (!(a is Quit))
    &&& (key.code == KeyCode::Enter ==> n.modal is Closed && (a matches Action::Delete { identifier:
        id } && id == identifier))
    &&& (key.code == KeyCode::Esc || key.code == KeyCode::Char('n') ==> n.modal is Closed && a is
        Nothing)
    &&& (!(key.code == KeyCode::Enter || key.code == KeyCode::Esc || key.code == KeyCode::Char('n'))
        ==> a is Nothing && n.modal == o.modal)
}

impl App {
    /// The state's own consistency: selections point into their lists, an
    /// account is always offered, and no key has an index whose successor
    /// is out of range.
    pub open spec fn wf(&self) -> bool {
        &&& indices_bounded(self.keys@)
        &&& (self.selected_key matches Some(i) ==> i < self.keys@.len())
        &&& (self.ecdh_selected matches Some(i) ==> i < self.keys@.len())
        &&& (self.hpke_selected matches Some(i) ==> i < self.keys@.len())
        &&& (self.wrapper_selected matches Some(i) ==> i < 3)
        &&& (self.backend_selected matches Some(i) ==> i < 3)
        &&& (self.gen_alg_selected matches Some(i) ==> i < 1)
        &&& (self.gen_context_selected matches Some(i) ==> i < 2)
        &&& self.gen_account_options@.len() > 0
        &&& self.active_field < 5
    }

    /// Takes the keys read from the stack: the account choices and the
    /// suggested index follow them, and the first key is selected when none
    /// was.
    pub fn set_keys(&mut self, keys: Vec<KeyMetadata>)
        requires
            old(self).wf(),
            indices_bounded(keys@),
        ensures
            final(self).wf(),
            final(self).keys@ == keys@,
            final(self).selected_key == if old(self).selected_key is None && keys@.len() > 0 {
                Some(0usize)
            } else {
                match old(self).selected_key {
                    Some(i) => if i < keys@.len() {
                        Some(i)
                    } else if keys@.len() > 0 {
                        Some((keys@.len() - 1) as usize)
                    } else {
                        None
                    },
                    None => None,
                }
            },
            forall|a: u32| #[trigger] final(self).gen_account_options@.contains(a) <==> seen_accounts(
                keys@,
            ).contains(a),
            ascending(final(self).gen_account_options@),
            final(self).modal == old(self).modal,
    {
        let n = keys.len();
        self.keys = keys;
        self.selected_key = clamp_selection(self.selected_key, n);
        self.ecdh_selected = clamp_selection(self.ecdh_selected, n);
        self.hpke_selected = clamp_selection(self.hpke_selected, n);
        self.update_xhd_defaults();
        if self.selected_key.is_none() && self.keys.len() > 0 {
            self.selected_key = Some(0);
        }
        proof {
            assert(final(self).gen_account_options@.contains(0u32)) by {
                assert(seen_accounts(keys@).contains(0u32)) by {
                    lemma_seen_accounts_has_zero(keys@);
                }
            }
        }
    }

    /// The settings were saved (`ok`) or not; once saved the dialog closes
    /// and the stack is set up again.
    pub fn config_saved(&mut self, ok: bool)
        ensures
            ok ==> final(self).modal is Closed && !final(self).connected,
            !ok ==> final(self).modal == old(self).modal && final(self).connected
                == old(self).connected,
            final(self).config == old(self).config,
    {
        if ok {
            self.modal = Modal::Closed;
            self.connected = false;
        }
    }

    /// Shows the signature, hex encoded, or the error.
    pub fn sign_done(&mut self, r: Result<Vec<u8>, SeetleError>)
        ensures
            final(self).sign_result@ == hex_outcome(r),
            final(self).modal == old(self).modal,
    {
        self.sign_result = hex_result(r);
    }

    /// Shows whether the signature verified; a failure leaves the dialog as
    /// it was.
    pub fn verify_done(&mut self, r: Result<bool, SeetleError>)
        ensures
            match r {
                Ok(v) => final(self).verify_result == Some(v),
                Err(_) => final(self).verify_result == old(self).verify_result,
            },
    {
        match r {
            Ok(v) => {
                self.verify_result = Some(v);
            },
            Err(_) => {},
        }
    }

    /// Shows the ciphertext, hex encoded, or the error.
    pub fn encrypt_done(&mut self, r: Result<Vec<u8>, SeetleError>)
        ensures
            final(self).encrypt_result@ == hex_outcome(r),
    {
        self.encrypt_result = hex_result(r);
    }

    /// Shows the plaintext as text, or the error.
    pub fn decrypt_done(&mut self, r: Result<Vec<u8>, SeetleError>)
        ensures
            final(self).decrypt_result@ == text_outcome(r),
    {
        self.decrypt_result = text_result(r);
    }

    /// Shows the shared secret, hex encoded, or the error.
    pub fn ecdh_done(&mut self, r: Result<Vec<u8>, SeetleError>)
        ensures
            final(self).ecdh_result@ == hex_outcome(r),
    {
        self.ecdh_result = hex_result(r);
    }

    /// Shows the HPKE message, hex encoded, or the error.
    pub fn hpke_seal_done(&mut self, r: Result<Vec<u8>, SeetleError>)
        ensures
            final(self).hpke_result@ == hex_outcome(r),
    {
        self.hpke_result = hex_result(r);
    }

    /// Shows the opened HPKE message as text, or the error.
    pub fn hpke_open_done(&mut self, r: Result<Vec<u8>, SeetleError>)
        ensures
            final(self).hpke_result@ == text_outcome(r),
    {
        self.hpke_result = text_result(r);
    }

    /// Shows the exported key, hex encoded; a failure shows nothing.
    pub fn export_done(&mut self, r: Result<Vec<u8>, SeetleError>)
        ensures
            match r {
                Ok(v) => final(self).export_result@ == hex_encoding(v@),
                Err(_) => final(self).export_result == old(self).export_result,
            },
    {
        match r {
            Ok(v) => {
                self.export_result = encode(v.as_slice());
            },
            Err(_) => {},
        }
    }

    /// After a deletion: the stack is rebuilt when the master seed went,
    /// the keys are reloaded otherwise; nothing after a failure.
    pub fn delete_done(&self, identifier: &str, ok: bool) -> (a: Action)
        ensures
            !ok ==> a is Nothing,
            ok && identifier@ == master_seed_name() ==> a is Reconnect,
            ok && identifier@ != master_seed_name() ==> a is Refresh,
    {
        if !ok {
            return Action::Nothing;
        }
        if String::from_str(identifier) == master_seed_id() {
            Action::Reconnect
        } else {
            Action::Refresh
        }
    }

    /// The identifier of the selected key.
    pub open spec fn selected_id(&self) -> Seq<char> {
        self.keys@[self.selected_key->0 as int].identifier@
    }

    fn selected_identifier(&self) -> (r: Option<String>)
        requires
            self.wf(),
        ensures
            match self.selected_key {
                Some(i) => r matches Some(id) && id@ == self.keys@[i as int].identifier@,
                None => r is None,
            },
    {
        match self.selected_key {
            Some(i) => Some(self.keys[i].identifier.clone()),
            None => None,
        }
    }

    /// Handles a key on the main screen, where no dialog is open.
    pub fn on_main_key(&mut self, key: KeyInput) -> (a: Action)
        requires
            old(self).wf(),
            old(self).modal is Closed,
        ensures
            final(self).wf(),
            final(self).keys == old(self).keys,
            main_key_step(*old(self), *final(self), key, a),
    {
        match key.code {
            KeyCode::Char('q') => Action::Quit,
            KeyCode::Down => {
                self.next_key();
                Action::Nothing
            },
            KeyCode::Up => {
                self.previous_key();
                Action::Nothing
            },
            KeyCode::Char('g') => {
                self.gen_id = String::new();
                self.gen_account = String::from_str("0");
                self.gen_context_selected = Some(0);
                self.update_xhd_defaults();
                self.modal = Modal::GenerateKey;
                self.active_field = 0;
                proof {
                    lemma_seen_accounts_has_zero(self.keys@);
                    assert(self.gen_account_options@.contains(0u32));
                }
                Action::Nothing
            },
            KeyCode::Char('s') => {
                if self.selected_key.is_some() {
                    self.sign_data = String::new();
                    self.sign_result = String::new();
                    self.modal = Modal::SignData;
                }
                Action::Nothing
            },
            KeyCode::Char('v') => {
                if self.selected_key.is_some() {
                    self.verify_data = String::new();
                    self.verify_sig = String::new();
                    self.verify_result = None;
                    self.active_field = 0;
                    self.modal = Modal::VerifySignature;
                }
                Action::Nothing
            },
            KeyCode::Char('e') => {
                if self.selected_key.is_some() {
                    self.encrypt_data = String::new();
                    self.encrypt_result = String::new();
                    self.modal = Modal::EncryptData;
                }
                Action::Nothing
            },
            KeyCode::Char('x') => {
                if self.selected_key.is_some() {
                    self.decrypt_data = String::new();
                    self.decrypt_result = String::new();
                    self.modal = Modal::DecryptData;
                }
                Action::Nothing
            },
            KeyCode::Char('X') => {
                match self.selected_key {
                    Some(i) => {
                        if self.keys[i].extractable {
                            let identifier = self.keys[i].identifier.clone();
                            self.export_result = String::new();
                            self.modal = Modal::ExportKey;
                            Action::Export { identifier }
                        } else {
                            Action::Nothing
                        }
                    },
                    None => Action::Nothing,
                }
            },
            KeyCode::Char('a') => {
                if self.selected_key.is_some() {
                    self.ecdh_peer_pub = String::new();
                    self.ecdh_new_key_id = String::new();
                    self.ecdh_result = String::new();
                    self.ecdh_selected = Some(0);
                    self.modal = Modal::Ecdh;
                    self.active_field = 0;
                }
                Action::Nothing
            },
            KeyCode::Char('h') => {
                if self.selected_key.is_some() {
                    self.hpke_peer_pub = String::new();
                    self.hpke_info = String::new();
                    self.hpke_result = String::new();
                    self.hpke_selected = Some(0);
                    self.modal = Modal::HpkeSeal;
                    self.active_field = 0;
                }
                Action::Nothing
            },
            KeyCode::Char('o') => {
                if self.selected_key.is_some() {
                    self.hpke_info = String::new();
                    self.hpke_result = String::new();
                    self.hpke_combined_data = String::new();
                    self.modal = Modal::HpkeOpen;
                    self.active_field = 0;
                }
                Action::Nothing
            },
            KeyCode::Char('r') => Action::Refresh,
            KeyCode::Char('d') => {
                match self.selected_identifier() {
                    Some(id) => {
                        self.modal = Modal::DeleteConfirmation(id);
                    },
                    None => {},
                }
                Action::Nothing
            },
            _ => Action::Nothing,
        }
    }
}

proof fn lemma_seen_accounts_has_zero(keys: Seq<KeyMetadata>)
    ensures
        seen_accounts(keys).contains(0u32),
        seen_accounts(keys)[0] == 0u32,
        seen_accounts(keys).len() > 0,
    decreases keys.len(),
{
    if keys.len() == 0 {
        assert(seq![0u32][0] == 0u32);
    } else {
        lemma_seen_accounts_has_zero(keys.drop_last());
        let rest = seen_accounts(keys.drop_last());
        match keys.last().account {
            Some(a) => {
                if !rest.contains(a) {
                    assert(rest.push(a)[0] == rest[0]);
                }
            },
            None => {},
        }
    }
}

} // verus!

verus! {

fn is_ascii_digit(c: char) -> (r: bool)
    ensures
        r == is_digit(c),
{
    '0' <= c && c <= '9'
}

fn position_u32(options: &Vec<u32>, value: u32) -> (r: Option<usize>)
    ensures
        match r {
            Some(i) => i < options@.len() && options@[i as int] == value && forall|j: int|
                0 <= j < i ==> options@[j] != value,
            None => !options@.contains(value),
        },
{
    let mut i: usize = 0;
    while i < options.len()
        invariant
            i <= options@.len(),
            forall|j: int| 0 <= j < i ==> options@[j] != value,
        decreases options@.len() - i,
    {
        if options[i] == value {
            return Some(i);
        }
        i = i + 1;
    }
    None
}

/// The bytes of the public key of the key at `sel`, as hex, if it has one.
pub open spec fn picked_public_key(keys: Seq<KeyMetadata>, sel: Option<usize>) -> Option<Seq<char>> {
    match sel {
        Some(i) => match keys[i as int].public_key {
            Some(pk) => Some(hex_encoding(pk@)),
            None => None,
        },
        None => None,
    }
}

impl App {
    /// Handles a key in the settings dialog: `q` quits, the arrows move in
    /// the active list, Tab switches lists, Enter takes the chosen settings
    /// and asks to save them.
    pub fn on_config_key(&mut self, key: KeyInput) -> (a: Action)
        requires
            old(self).wf(),
        ensures
            final(self).wf(),
            final(self).keys == old(self).keys,
            config_key_step(*old(self), *final(self), key, a),
    {
        match key.code {
            KeyCode::Char('q') => Action::Quit,
            KeyCode::Down => {
                self.next_config();
                Action::Nothing
            },
            KeyCode::Up => {
                self.previous_config();
                Action::Nothing
            },
            KeyCode::Tab => {
                self.active_field = (self.active_field + 1) % 2;
                Action::Nothing
            },
            KeyCode::Enter => {
                let w = match self.wrapper_selected {
                    Some(i) => i,
                    None => 0,
                };
                let b = match self.backend_selected {
                    Some(i) => i,
                    None => 0,
                };
                self.config.storage_wrapper = String::from_str(wrapper_str(w));
                self.config.root_backend = String::from_str(backend_str(b));
                Action::SaveConfig
            },
            _ => Action::Nothing,
        }
    }

    /// Handles a key in the generation dialog. Fields: 0 the identifier, 1
    /// the algorithm, 2 the context, 3 the account, 4 the index. Enter with
    /// an identifier asks for a hardware-bound signing key at the chosen
    /// xHD path.
    pub fn on_generate_key(&mut self, key: KeyInput) -> (a: Action)
        requires
            old(self).wf(),
        ensures
            final(self).wf(),
            final(self).keys == old(self).keys,
            generate_key_step(*old(self), *final(self), key, a),
    {
        match key.code {
            KeyCode::Esc => {
                self.modal = Modal::Closed;
                Action::Nothing
            },
            KeyCode::Char(c) => {
                if self.active_field == 0 {
                    push_char(&mut self.gen_id, c);
                } else if self.active_field == 3 {
                    if is_ascii_digit(c) {
                        push_char(&mut self.gen_account, c);
                        self.update_suggested_index();
                    }
                } else if self.active_field == 4 {
                    if is_ascii_digit(c) {
                        push_char(&mut self.gen_index, c);
                    }
                }
                Action::Nothing
            },
            KeyCode::Backspace => {
                if self.active_field == 0 {
                    pop_char(&mut self.gen_id);
                } else if self.active_field == 3 {
                    pop_char(&mut self.gen_account);
                    self.update_suggested_index();
                } else if self.active_field == 4 {
                    pop_char(&mut self.gen_index);
                }
                Action::Nothing
            },
            KeyCode::Tab => {
                self.active_field = (self.active_field + 1) % 5;
                Action::Nothing
            },
            KeyCode::Up | KeyCode::Down => {
                let down = key.code == KeyCode::Down;
                if self.active_field == 1 {
                    let i = if down {
                        next_index(self.gen_alg_selected, GEN_ALG_OPTIONS)
                    } else {
                        prev_index(self.gen_alg_selected, GEN_ALG_OPTIONS)
                    };
                    self.gen_alg_selected = Some(i);
                } else if self.active_field == 2 {
                    let i = if down {
                        next_index(self.gen_context_selected, GEN_CONTEXT_OPTIONS)
                    } else {
                        prev_index(self.gen_context_selected, GEN_CONTEXT_OPTIONS)
                    };
                    self.gen_context_selected = Some(i);
                    self.update_suggested_index();
                } else if self.active_field == 3 {
                    let current = parse_or_zero(&self.gen_account);
                    let n = self.gen_account_options.len();
                    let pos = position_u32(&self.gen_account_options, current);
                    let i = if down {
                        next_index(pos, n)
                    } else {
                        prev_index(pos, n)
                    };
                    self.gen_account = u32_to_string(self.gen_account_options[i]);
                    self.update_suggested_index();
                }
                Action::Nothing
            },
            KeyCode::Enter => {
                if crate::text::char_count(self.gen_id.as_str()) == 0 {
                    return Action::Nothing;
                }
                let context = match self.gen_context_selected {
                    Some(i) => if i == 0 {
                        XhdContext::Address
                    } else {
                        XhdContext::Identity
                    },
                    None => XhdContext::Address,
                };
                let account = parse_or_zero(&self.gen_account);
                let index = parse_or_zero(&self.gen_index);
                let name = format_xhd_params(context, account, index, XhdScheme::Peikert);
                let mut usages: Vec<KeyUsage> = Vec::new();
                usages.push(KeyUsage::Sign);
                usages.push(KeyUsage::Verify);
                assert(usages@ =~= seq![KeyUsage::Sign, KeyUsage::Verify]);
                let bindings = Bindings {
                    hardware_bound: HardwareBound::Yes,
                    extractable: false,
                    origin_bindings: Vec::new(),
                    identifier: self.gen_id.clone(),
                    updatable: false,
                };
                self.modal = Modal::Closed;
                Action::Generate { algorithm: Algorithm::Ed25519 { name }, bindings, usages }
            },
            _ => Action::Nothing,
        }
    }

    /// Handles a key in the signing dialog: typing edits the data, Enter
    /// asks to sign it with the selected key, Control-C copies the result.
    pub fn on_sign_key(&mut self, key: KeyInput) -> (a: Action)
        requires
            old(self).wf(),
        ensures
            final(self).wf(),
            final(self).keys == old(self).keys,
            sign_key_step(*old(self), *final(self), key, a),
    {
        match key.code {
            KeyCode::Esc => {
                self.modal = Modal::Closed;
                Action::Nothing
            },
            KeyCode::Char(c) => {
                if c == 'c' && key.control {
                    if crate::text::char_count(self.sign_result.as_str()) > 0 {
                        return Action::Copy(self.sign_result.clone());
                    }
                    return Action::Nothing;
                }
                push_char(&mut self.sign_data, c);
                Action::Nothing
            },
            KeyCode::Backspace => {
                pop_char(&mut self.sign_data);
                Action::Nothing
            },
            KeyCode::Enter => {
                match self.selected_identifier() {
                    Some(identifier) => Action::Sign {
                        identifier,
                        algorithm: Algorithm::Ed25519 { name: String::from_str("Ed25519") },
                        data: utf8_bytes(self.sign_data.clone()),
                    },
                    None => Action::Nothing,
                }
            },
            _ => Action::Nothing,
        }
    }

    /// Handles a key in the verification dialog: typing edits the data
    /// (field 0) or the hex signature (field 1) until a result is shown;
    /// Enter asks to verify, or closes the dialog once a result is shown.
    /// A signature that is not hex asks for nothing.
    pub fn on_verify_key(&mut self, key: KeyInput) -> (a: Action)
        requires
            old(self).wf(),
        ensures
            final(self).wf(),
            final(self).keys == old(self).keys,
            verify_key_step(*old(self), *final(self), key, a),
    {
        match key.code {
            KeyCode::Esc => {
                self.modal = Modal::Closed;
                Action::Nothing
            },
            KeyCode::Char(c) => {
                if self.verify_result.is_none() {
                    if self.active_field == 0 {
                        push_char(&mut self.verify_data, c);
                    } else {
                        push_char(&mut self.verify_sig, c);
                    }
                }
                Action::Nothing
            },
            KeyCode::Backspace => {
                if self.verify_result.is_none() {
                    if self.active_field == 0 {
                        pop_char(&mut self.verify_data);
                    } else {
                        pop_char(&mut self.verify_sig);
                    }
                }
                Action::Nothing
            },
            KeyCode::Tab => {
                if self.verify_result.is_none() {
                    self.active_field = (self.active_field + 1) % 2;
                }
                Action::Nothing
            },
            KeyCode::Enter => {
                if self.verify_result.is_some() {
                    self.modal = Modal::Closed;
                    self.verify_result = None;
                    return Action::Nothing;
                }
                match self.selected_identifier() {
                    Some(identifier) => match decode(self.verify_sig.as_str()) {
                        Some(signature) => Action::Verify {
                            identifier,
                            algorithm: Algorithm::Ed25519 { name: String::from_str("Ed25519") },
                            signature,
                            data: utf8_bytes(self.verify_data.clone()),
                        },
                        None => Action::Nothing,
                    },
                    None => Action::Nothing,
                }
            },
            _ => Action::Nothing,
        }
    }
}

} // verus!

verus! {

/// The algorithm the encryption dialogs use with a key's own secret.
pub open spec fn is_aes_request(a: Algorithm) -> bool {
    a matches Algorithm::Generic { name } && name@ == "AesGcm"@
}

/// The HPKE suite the interface asks for, with the given peer key and info.
pub open spec fn is_hpke_request(a: Algorithm, public_key: Option<Seq<u8>>, info: Seq<u8>) -> bool {
    a matches Algorithm::Hpke { name, public_key: pk, info: i } && name@
        == "DHKEM_X25519_HKDF_SHA256"@ && match (pk, public_key) {
        (Some(p), Some(q)) => p@ == q,
        (None, None) => true,
        _ => false,
    } && (i matches Some(v) && v@ == info)
}

/// The name of the ECDH request: `SAVE_KEY:<id>` saves the agreed key under
/// `<id>`, an empty id asks for the bits alone.
pub open spec fn ecdh_request_name(new_key_id: Seq<char>) -> Seq<char> {
    if new_key_id.len() > 0 {
        "SAVE_KEY:"@ + new_key_id
    } else {
        "X25519"@
    }
}

fn aes_request() -> (a: Algorithm)
    ensures
        is_aes_request(a),
{
    Algorithm::Generic { name: String::from_str("AesGcm") }
}

impl App {
    /// Handles a key in the encryption dialog: typing edits the data,
    /// Enter asks to encrypt it with the selected key, Control-C copies the
    /// result.
    pub fn on_encrypt_key(&mut self, key: KeyInput) -> (a: Action)
        requires
            old(self).wf(),
        ensures
            final(self).wf(),
            final(self).keys == old(self).keys,
            encrypt_key_step(*old(self), *final(self), key, a),
    {
        match key.code {
            KeyCode::Esc => {
                self.modal = Modal::Closed;
                Action::Nothing
            },
            KeyCode::Char(c) => {
                if c == 'c' && key.control {
                    if crate::text::char_count(self.encrypt_result.as_str()) > 0 {
                        return Action::Copy(self.encrypt_result.clone());
                    }
                    return Action::Nothing;
                }
                push_char(&mut self.encrypt_data, c);
                Action::Nothing
            },
            KeyCode::Backspace => {
                pop_char(&mut self.encrypt_data);
                Action::Nothing
            },
            KeyCode::Enter => match self.selected_identifier() {
                Some(identifier) => Action::Encrypt {
                    identifier,
                    algorithm: aes_request(),
                    data: utf8_bytes(self.encrypt_data.clone()),
                },
                None => Action::Nothing,
            },
            _ => Action::Nothing,
        }
    }

    /// Handles a key in the decryption dialog: typing edits the hex data,
    /// Enter asks to decrypt it with the selected key (nothing when the data
    /// is not hex), Control-C copies the result.
    pub fn on_decrypt_key(&mut self, key: KeyInput) -> (a: Action)
        requires
            old(self).wf(),
        ensures
            final(self).wf(),
            final(self).keys == old(self).keys,
            decrypt_key_step(*old(self), *final(self), key, a),
    {
        match key.code {
            KeyCode::Esc => {
                self.modal = Modal::Closed;
                Action::Nothing
            },
            KeyCode::Char(c) => {
                if c == 'c' && key.control {
                    if crate::text::char_count(self.decrypt_result.as_str()) > 0 {
                        return Action::Copy(self.decrypt_result.clone());
                    }
                    return Action::Nothing;
                }
                push_char(&mut self.decrypt_data, c);
                Action::Nothing
            },
            KeyCode::Backspace => {
                pop_char(&mut self.decrypt_data);
                Action::Nothing
            },
            KeyCode::Enter => match self.selected_identifier() {
                Some(identifier) => match decode(self.decrypt_data.as_str()) {
                    Some(data) => Action::Decrypt { identifier, algorithm: aes_request(), data },
                    None => Action::Nothing,
                },
                None => Action::Nothing,
            },
            _ => Action::Nothing,
        }
    }

    /// Handles a key in the ECDH dialog. Fields: 0 the peer's public key
    /// (hex), 1 the identifier to save the agreed key under, 2 the key list
    /// to take a peer key from. Enter on the list takes the chosen key's
    /// public key; elsewhere it asks for 256 bits agreed with the peer.
    pub fn on_ecdh_key(&mut self, key: KeyInput) -> (a: Action)
        requires
            old(self).wf(),
        ensures
            final(self).wf(),
            final(self).keys == old(self).keys,
            ecdh_key_step(*old(self), *final(self), key, a),
    {
        match key.code {
            KeyCode::Esc => {
                self.modal = Modal::Closed;
                Action::Nothing
            },
            KeyCode::Tab => {
                self.active_field = (self.active_field + 1) % 3;
                Action::Nothing
            },
            KeyCode::Up | KeyCode::Down => {
                if self.active_field == 2 && self.keys.len() > 0 {
                    let i = if key.code == KeyCode::Down {
                        next_index(self.ecdh_selected, self.keys.len())
                    } else {
                        prev_index(self.ecdh_selected, self.keys.len())
                    };
                    self.ecdh_selected = Some(i);
                }
                Action::Nothing
            },
            KeyCode::Char(c) => {
                if c == 'c' && key.control {
                    if crate::text::char_count(self.ecdh_result.as_str()) > 0 {
                        return Action::Copy(self.ecdh_result.clone());
                    }
                    return Action::Nothing;
                }
                if self.active_field == 0 {
                    push_char(&mut self.ecdh_peer_pub, c);
                } else if self.active_field == 1 {
                    push_char(&mut self.ecdh_new_key_id, c);
                }
                Action::Nothing
            },
            KeyCode::Backspace => {
                if self.active_field == 0 {
                    pop_char(&mut self.ecdh_peer_pub);
                } else if self.active_field == 1 {
                    pop_char(&mut self.ecdh_new_key_id);
                }
                Action::Nothing
            },
            KeyCode::Enter => {
                if self.active_field == 2 {
                    match self.ecdh_selected {
                        Some(i) => match &self.keys[i].public_key {
                            Some(pk) => {
                                self.ecdh_peer_pub = encode(pk.as_slice());
                                self.active_field = 0;
                            },
                            None => {},
                        },
                        None => {},
                    }
                    return Action::Nothing;
                }
                let identifier = match self.selected_identifier() {
                    Some(id) => id,
                    None => return Action::Nothing,
                };
                let peer = match decode(self.ecdh_peer_pub.as_str()) {
                    Some(p) => p,
                    None => return Action::Nothing,
                };
                let save = crate::text::char_count(self.ecdh_new_key_id.as_str()) > 0;
                let name = if save {
                    joined("SAVE_KEY:", self.ecdh_new_key_id.as_str())
                } else {
                    String::from_str("X25519")
                };
                Action::DeriveBits {
                    identifier,
                    algorithm: Algorithm::Ecdh { name, public_key: peer },
                    length: 256,
                    refresh: save,
                }
            },
            _ => Action::Nothing,
        }
    }

    /// Handles a key in the HPKE sealing dialog. Fields: 0 the peer's public
    /// key (hex), 1 the info, 2 the data, 3 the key list to take a peer key
    /// from. Enter on the list takes the chosen key's public key; elsewhere
    /// it asks to seal the data for the peer.
    pub fn on_hpke_seal_key(&mut self, key: KeyInput) -> (a: Action)
        requires
            old(self).wf(),
        ensures
            final(self).wf(),
            final(self).keys == old(self).keys,
            hpke_seal_key_step(*old(self), *final(self), key, a),
    {
        match key.code {
            KeyCode::Esc => {
                self.modal = Modal::Closed;
                Action::Nothing
            },
            KeyCode::Tab => {
                self.active_field = (self.active_field + 1) % 4;
                Action::Nothing
            },
            KeyCode::Up | KeyCode::Down => {
                if self.active_field == 3 && self.keys.len() > 0 {
                    let i = if key.code == KeyCode::Down {
                        next_index(self.hpke_selected, self.keys.len())
                    } else {
                        prev_index(self.hpke_selected, self.keys.len())
                    };
                    self.hpke_selected = Some(i);
                }
                Action::Nothing
            },
            KeyCode::Char(c) => {
                if c == 'c' && key.control {
                    if crate::text::char_count(self.hpke_result.as_str()) > 0 {
                        return Action::Copy(self.hpke_result.clone());
                    }
                    return Action::Nothing;
                }
                if self.active_field == 0 {
                    push_char(&mut self.hpke_peer_pub, c);
                } else if self.active_field == 1 {
                    push_char(&mut self.hpke_info, c);
                } else if self.active_field == 2 {
                    push_char(&mut self.encrypt_data, c);
                }
                Action::Nothing
            },
            KeyCode::Backspace => {
                if self.active_field == 0 {
                    pop_char(&mut self.hpke_peer_pub);
                } else if self.active_field == 1 {
                    pop_char(&mut self.hpke_info);
                } else if self.active_field == 2 {
                    pop_char(&mut self.encrypt_data);
                }
                Action::Nothing
            },
            KeyCode::Enter => {
                if self.active_field == 3 {
                    match self.hpke_selected {
                        Some(i) => match &self.keys[i].public_key {
                            Some(pk) => {
                                self.hpke_peer_pub = encode(pk.as_slice());
                                self.active_field = 0;
                            },
                            None => {},
                        },
                        None => {},
                    }
                    return Action::Nothing;
                }
                let peer = match decode(self.hpke_peer_pub.as_str()) {
                    Some(p) => p,
                    None => return Action::Nothing,
                };
                Action::HpkeSeal {
                    key: KeyOrIdentifier::Identifier(String::from_str("ignored")),
                    algorithm: Algorithm::Hpke {
                        name: String::from_str("DHKEM_X25519_HKDF_SHA256"),
                        public_key: Some(peer),
                        info: Some(utf8_bytes(self.hpke_info.clone())),
                    },
                    data: utf8_bytes(self.encrypt_data.clone()),
                }
            },
            _ => Action::Nothing,
        }
    }

    /// Handles a key in the HPKE opening dialog. Fields: 0 the message
    /// (hex), 1 the info. Enter asks to open the message with the selected
    /// key (nothing when it is not hex).
    pub fn on_hpke_open_key(&mut self, key: KeyInput) -> (a: Action)
        requires
            old(self).wf(),
        ensures
            final(self).wf(),
            final(self).keys == old(self).keys,
            hpke_open_key_step(*old(self), *final(self), key, a),
    {
        match key.code {
            KeyCode::Esc => {
                self.modal = Modal::Closed;
                Action::Nothing
            },
            KeyCode::Tab => {
                self.active_field = (self.active_field + 1) % 2;
                Action::Nothing
            },
            KeyCode::Char(c) => {
                if c == 'c' && key.control {
                    if crate::text::char_count(self.hpke_result.as_str()) > 0 {
                        return Action::Copy(self.hpke_result.clone());
                    }
                    return Action::Nothing;
                }
                if self.active_field == 0 {
                    push_char(&mut self.hpke_combined_data, c);
                } else if self.active_field == 1 {
                    push_char(&mut self.hpke_info, c);
                }
                Action::Nothing
            },
            KeyCode::Backspace => {
                if self.active_field == 0 {
                    pop_char(&mut self.hpke_combined_data);
                } else if self.active_field == 1 {
                    pop_char(&mut self.hpke_info);
                }
                Action::Nothing
            },
            KeyCode::Enter => {
                let identifier = match self.selected_identifier() {
                    Some(id) => id,
                    None => return Action::Nothing,
                };
                match decode(self.hpke_combined_data.as_str()) {
                    Some(data) => Action::HpkeOpen {
                        identifier,
                        algorithm: Algorithm::Hpke {
                            name: String::from_str("DHKEM_X25519_HKDF_SHA256"),
                            public_key: None,
                            info: Some(utf8_bytes(self.hpke_info.clone())),
                        },
                        data,
                    },
                    None => Action::Nothing,
                }
            },
            _ => Action::Nothing,
        }
    }

    /// Handles a key in the export dialog: Esc or Enter closes it,
    /// Control-C copies the exported key.
    pub fn on_export_key(&mut self, key: KeyInput) -> (a: Action)
        requires
            old(self).wf(),
        ensures
            final(self).wf(),
            final(self).keys == old(self).keys,
            export_key_step(*old(self), *final(self), key, a),
    {
        match key.code {
            KeyCode::Esc | KeyCode::Enter => {
                self.modal = Modal::Closed;
                Action::Nothing
            },
            KeyCode::Char(c) => {
                if c == 'c' && key.control && crate::text::char_count(self.export_result.as_str())
                    > 0 {
                    return Action::Copy(self.export_result.clone());
                }
                Action::Nothing
            },
            _ => Action::Nothing,
        }
    }

    /// Handles a key while an error is shown: Enter or Esc dismisses it.
    pub fn on_error_key(&mut self, key: KeyInput) -> (a: Action)
        requires
            old(self).wf(),
        ensures
            final(self).wf(),
            final(self).keys == old(self).keys,
            error_key_step(*old(self), *final(self), key, a),
    {
        if key.code == KeyCode::Esc || key.code == KeyCode::Enter {
            self.modal = Modal::Closed;
        }
        Action::Nothing
    }

    /// Handles a key while a deletion awaits confirmation: Enter asks to
    /// delete and closes the dialog, Esc or `n` cancels.
    pub fn on_delete_key(&mut self, key: KeyInput, identifier: String) -> (a: Action)
        requires
            old(self).wf(),
        ensures
            final(self).wf(),
            final(self).keys == old(self).keys,
            delete_key_step(*old(self), *final(self), key, a, identifier),
    {
        match key.code {
            KeyCode::Enter => {
                self.modal = Modal::Closed;
                Action::Delete { identifier }
            },
            KeyCode::Esc | KeyCode::Char('n') => {
                self.modal = Modal::Closed;
                Action::Nothing
            },
            _ => Action::Nothing,
        }
    }

    /// Handles a key press: on the main screen when no dialog is open,
    /// else in the open dialog (see the `on_*_key` methods).
    pub fn handle_key(&mut self, key: KeyInput) -> (a: Action)
        requires
            old(self).wf(),
        ensures
            final(self).wf(),
            final(self).keys == old(self).keys,
            old(self).modal is Closed && key.code == KeyCode::Char('q') ==> a is Quit,
            old(self).modal is Config && key.code == KeyCode::Char('q') ==> a is Quit,
            !(old(self).modal is Closed || old(self).modal is Config) ==> !(a is Quit),
            old(self).modal is Closed ==> main_key_step(*old(self), *final(self), key, a),
            old(self).modal is Config ==> config_key_step(*old(self), *final(self), key, a),
            old(self).modal is GenerateKey ==> generate_key_step(*old(self), *final(self), key, a),
            old(self).modal is SignData ==> sign_key_step(*old(self), *final(self), key, a),
            old(self).modal is VerifySignature ==> verify_key_step(*old(self), *final(self), key, a),
            old(self).modal is EncryptData ==> encrypt_key_step(*old(self), *final(self), key, a),
            old(self).modal is DecryptData ==> decrypt_key_step(*old(self), *final(self), key, a),
            old(self).modal is Ecdh ==> ecdh_key_step(*old(self), *final(self), key, a),
            old(self).modal is HpkeSeal ==> hpke_seal_key_step(*old(self), *final(self), key, a),
            old(self).modal is HpkeOpen ==> hpke_open_key_step(*old(self), *final(self), key, a),
            old(self).modal is ExportKey ==> export_key_step(*old(self), *final(self), key, a),
            old(self).modal is Error ==> error_key_step(*old(self), *final(self), key, a),
            old(self).modal matches Modal::DeleteConfirmation(id) ==> delete_key_step(
                *old(self),
                *final(self),
                key,
                a,
                id,
            ),
    {
        match self.modal {
            Modal::Closed => self.on_main_key(key),
            Modal::Config => self.on_config_key(key),
            Modal::GenerateKey => self.on_generate_key(key),
            Modal::SignData => self.on_sign_key(key),
            Modal::VerifySignature => self.on_verify_key(key),
            Modal::EncryptData => self.on_encrypt_key(key),
            Modal::DecryptData => self.on_decrypt_key(key),
            Modal::Ecdh => self.on_ecdh_key(key),
            Modal::HpkeSeal => self.on_hpke_seal_key(key),
            Modal::HpkeOpen => self.on_hpke_open_key(key),
            Modal::ExportKey => self.on_export_key(key),
            Modal::Error(_) => self.on_error_key(key),
            Modal::DeleteConfirmation(ref id) => {
                let id = id.clone();
                self.on_delete_key(key, id)
            },
        }
    }
}

} // verus!
