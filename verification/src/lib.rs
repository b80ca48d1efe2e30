//! A two-party wager.
//!
//! Two participants each stake an amount into a shared pool; a resolver later
//! declares a winner (or no winner), which pays the pool out or retains it and
//! readies the record for a new wager. This crate holds the wager lifecycle
//! itself: participant admission, stake accumulation, and outcome resolution.
//! Custody of the funds belongs to an external ledger; resolution here only
//! *requests* a transfer (as a [`TransferRequest`] value) and resets the
//! record once the embedding program reports that the ledger performed it.

use vstd::prelude::*;

verus! {

/// An opaque participant identity, such as a 32-byte account key. The wager
/// logic never reads it; it is stored in a slot and handed back on payout.
#[derive(Clone, Copy, PartialEq, Eq, Debug)]
pub struct PlayerId {
    pub bytes: [u8; 32],
}

/// One wager instance: two optional participant slots and the accumulated
/// pool amount. The fields are private; all mutation goes through
/// [`initialize`], [`join_game`], [`resolve_game`] and [`confirm_payout`],
/// which keep the lifecycle invariants.
pub struct Game {
    player_one: Option<PlayerId>,
    player_two: Option<PlayerId>,
    wager: u64,
}

/// The mathematical value of a [`Game`]: what each slot holds and how much
/// the pool has accumulated.
pub struct GameView {
    pub player_one: Option<PlayerId>,
    pub player_two: Option<PlayerId>,
    pub wager: u64,
}

impl View for Game {
    type V = GameView;

    closed spec fn view(&self) -> GameView {
        GameView {
            player_one: self.player_one,
            player_two: self.player_two,
            wager: self.wager,
        }
    }
}

/// A game with no participants and an empty pool: the initial state, and the
/// state again after every completed resolution.
pub open spec fn empty_game() -> GameView {
    GameView { player_one: None, player_two: None, wager: 0 }
}

/// Both slots occupied: the game can be resolved and admits no further join.
pub open spec fn is_ready(g: GameView) -> bool {
    g.player_one is Some && g.player_two is Some
}

/// Why an operation was refused. Both errors are terminal for the triggering
/// call and leave the record exactly as it was.
#[derive(Clone, Copy, PartialEq, Eq, Structural, Debug)]
pub enum ErrorCode {
    /// A join was attempted on a game whose two slots are already occupied.
    GameFull,
    /// Resolution was attempted before both participants had joined.
    NotEnoughPlayers,
}

/// A payout the external ledger is asked to perform: move `amount` out of the
/// pool to the account of `to`. Produced by [`resolve_game`] when a winner is
/// declared; the record resets only once the ledger has confirmed it.
#[derive(Clone, Copy, PartialEq, Eq, Debug)]
pub struct TransferRequest {
    pub to: PlayerId,
    pub amount: u64,
}

/// The state after a join: the first empty slot takes the identity and the
/// stake joins the pool; a full game is left unchanged.
pub open spec fn join_next(g: GameView, p: PlayerId, amount: u64) -> GameView {
    if g.player_one is None {
        GameView {
            player_one: Some(p),
            player_two: g.player_two,
            wager: (g.wager + amount) as u64,
        }
    } else if g.player_two is None {
        GameView {
            player_one: g.player_one,
            player_two: Some(p),
            wager: (g.wager + amount) as u64,
        }
    } else {
        g
    }
}

/// Whether a join is admitted: it fails with `GameFull` exactly when both
/// slots are already taken.
pub open spec fn join_outcome(g: GameView) -> Result<(), ErrorCode> {
    if is_ready(g) {
        Err(ErrorCode::GameFull)
    } else {
        Ok(())
    }
}

/// What resolution answers: the payout request when a winner is declared,
/// no request when the pool is retained, and `NotEnoughPlayers` before both
/// slots are filled.
pub open spec fn resolve_outcome(g: GameView, winner: Option<PlayerId>) -> Result<
    Option<TransferRequest>,
    ErrorCode,
> {
    if !is_ready(g) {
        Err(ErrorCode::NotEnoughPlayers)
    } else {
        match winner {
            Some(w) => Ok(Some(TransferRequest { to: w, amount: g.wager })),
            None => Ok(None),
        }
    }
}

/// The state when `resolve_game` returns: reset at once when the pool is
/// retained; otherwise unchanged, since a declared winner resets the record
/// only once the ledger has confirmed the payout, through [`confirm_payout`].
pub open spec fn resolve_next(g: GameView, winner: Option<PlayerId>) -> GameView {
    if is_ready(g) && winner is None {
        empty_game()
    } else {
        g
    }
}

impl Game {
    /// A freshly allocated wager record, holding no participants and no stake.
    pub fn new() -> (g: Game)
        ensures
            g@ == empty_game(),
    {
        Game { player_one: None, player_two: None, wager: 0 }
    }

    /// A wager record rebuilt from its persisted fields. The embedding
    /// program durably stores the record between calls (in a ledger account)
    /// and hands it back through this constructor before each operation.
    pub fn from_parts(
        player_one: Option<PlayerId>,
        player_two: Option<PlayerId>,
        wager: u64,
    ) -> (g: Game)
        ensures
            g@ == (GameView { player_one, player_two, wager }),
    {
        Game { player_one, player_two, wager }
    }

    /// The identity in the first participant slot, if one has joined.
    pub fn player_one(&self) -> (r: Option<PlayerId>)
        ensures
            r == self@.player_one,
    {
        self.player_one
    }

    /// The identity in the second participant slot, if one has joined.
    pub fn player_two(&self) -> (r: Option<PlayerId>)
        ensures
            r == self@.player_two,
    {
        self.player_two
    }

    /// The stake accumulated in the pool since the last reset.
    pub fn wager(&self) -> (r: u64)
        ensures
            r == self@.wager,
    {
        self.wager
    }

    /// Whether both slots are occupied, so the game can be resolved.
    pub fn ready(&self) -> (r: bool)
        ensures
            r == is_ready(self@),
    {
        self.player_one.is_some() && self.player_two.is_some()
    }
}

/// Reset the record to the empty state. Idempotent on an already-empty record;
/// calling it on a record with a wager in progress abandons that wager, so
/// that is the caller's responsibility, as it is in the embedding program.
pub fn initialize(game: &mut Game)
    ensures
        final(game)@ == empty_game(),
{
    game.player_one = None;
    game.player_two = None;
    game.wager = 0;
}

/// Admit a participant: the identity takes the first empty slot and the stake
/// is added to the pool. On a full game this fails with `GameFull` and changes
/// nothing. The stakes of the two joiners are not checked for equality, nor is
/// the identity checked against the slot already taken: both are the caller's
/// concern, a deliberate simplification of this core.
pub fn join_game(game: &mut Game, player_wallet: PlayerId, wager_amount: u64) -> (r: Result<
    (),
    ErrorCode,
>)
    requires
        is_ready(old(game)@) || old(game)@.wager + wager_amount <= u64::MAX,
    ensures
        r == join_outcome(old(game)@),
        final(game)@ == join_next(old(game)@, player_wallet, wager_amount),
{
    if game.player_one.is_none() {
        game.player_one = Some(player_wallet);
    } else if game.player_two.is_none() {
        game.player_two = Some(player_wallet);
    } else {
        return Err(ErrorCode::GameFull);
    }
    game.wager = game.wager + wager_amount;
    Ok(())
}

/// Resolve the wager. Before both slots are filled this fails with
/// `NotEnoughPlayers`, requests nothing and changes nothing. With no winner,
/// the pool is retained where it lies and the record resets at once, ready
/// for reuse. With a winner, the returned request names the payout the ledger
/// must perform, and the record is left untouched until [`confirm_payout`]
/// reports the transfer done — so a transfer the ledger refuses leaves the
/// wager exactly as it was, and resolution can be retried. The winner is not
/// checked against the two joined participants: naming a rightful winner is
/// the resolver's concern, a deliberate simplification of this core.
pub fn resolve_game(game: &mut Game, winner_wallet: Option<PlayerId>) -> (r: Result<
    Option<TransferRequest>,
    ErrorCode,
>)
    ensures
        r == resolve_outcome(old(game)@, winner_wallet),
        final(game)@ == resolve_next(old(game)@, winner_wallet),
{
    if game.player_one.is_none() || game.player_two.is_none() {
        return Err(ErrorCode::NotEnoughPlayers);
    }
    match winner_wallet {
        Some(winner) => Ok(Some(TransferRequest { to: winner, amount: game.wager })),
        None => {
            game.player_one = None;
            game.player_two = None;
            game.wager = 0;
            Ok(None)
        },
    }
}

/// Complete a winner resolution once the ledger has confirmed the transfer:
/// the record resets to empty, ready for two fresh joins. Must only be called
/// after [`resolve_game`] returned a payout request and the ledger performed
/// it; when the transfer failed, calling nothing leaves the record intact,
/// which is what keeps resolution atomic.
pub fn confirm_payout(game: &mut Game)
    requires
        is_ready(old(game)@),
    ensures
        final(game)@ == empty_game(),
{
    game.player_one = None;
    game.player_two = None;
    game.wager = 0;
}

/// Slot admission order: on a fresh game the first join is admitted and always
/// fills the first slot, and the second join then fills the second slot,
/// whatever the identities and stakes are.
pub proof fn lemma_slot_admission_order(p: PlayerId, q: PlayerId, a: u64, b: u64)
    ensures
        join_outcome(empty_game()) == Ok::<(), ErrorCode>(()),
        join_next(empty_game(), p, a).player_one == Some(p),
        join_next(empty_game(), p, a).player_two == Option::<PlayerId>::None,
        join_outcome(join_next(empty_game(), p, a)) == Ok::<(), ErrorCode>(()),
        join_next(join_next(empty_game(), p, a), q, b).player_one == Some(p),
        join_next(join_next(empty_game(), p, a), q, b).player_two == Some(q),
{
}

/// Capacity: a join on a ready game always fails with `GameFull` and leaves
/// both slots and the pool unchanged.
pub proof fn lemma_capacity(g: GameView, p: PlayerId, a: u64)
    requires
        is_ready(g),
    ensures
        join_outcome(g) == Err::<(), ErrorCode>(ErrorCode::GameFull),
        join_next(g, p, a) == g,
{
}

/// Stake accumulation: two joins with stakes `a` and `b` on a fresh game leave
/// the pool holding exactly `a + b`, with no rounding or truncation.
pub proof fn lemma_stake_accumulation(p: PlayerId, q: PlayerId, a: u64, b: u64)
    requires
        a + b <= u64::MAX,
    ensures
        join_next(join_next(empty_game(), p, a), q, b).wager == a + b,
{
}

/// Resolution precondition: while either slot is still empty, resolution
/// always fails with `NotEnoughPlayers`, requests no transfer, and changes
/// nothing.
pub proof fn lemma_resolution_precondition(g: GameView, winner: Option<PlayerId>)
    requires
        !is_ready(g),
    ensures
        resolve_outcome(g, winner) == Err::<Option<TransferRequest>, ErrorCode>(
            ErrorCode::NotEnoughPlayers,
        ),
        resolve_next(g, winner) == g,
{
}

/// Winner payout: resolving a ready game with a declared winner requests
/// exactly one transfer, of the whole pool, to that winner. The reset that
/// follows a confirmed transfer is the contract of [`confirm_payout`].
pub proof fn lemma_winner_payout(g: GameView, w: PlayerId)
    requires
        is_ready(g),
    ensures
        resolve_outcome(g, Some(w)) == Ok::<Option<TransferRequest>, ErrorCode>(
            Some((TransferRequest { to: w, amount: g.wager })),
        ),
{
}

/// Retention: resolving a ready game with no winner requests no transfer,
/// leaves the pool's value where it lies, and resets the record at once.
pub proof fn lemma_retention(g: GameView)
    requires
        is_ready(g),
    ensures
        resolve_outcome(g, Option::<PlayerId>::None) == Ok::<Option<TransferRequest>, ErrorCode>(
            None,
        ),
        resolve_next(g, Option::<PlayerId>::None) == empty_game(),
{
}

/// Atomicity on transfer failure: declaring a winner does not by itself touch
/// the record — [`resolve_game`] leaves a ready game exactly as it was. So if
/// the ledger refuses the transfer and [`confirm_payout`] is therefore never
/// called, the game still holds both players and the full wager.
pub proof fn lemma_atomicity_on_failure(g: GameView, w: PlayerId)
    requires
        is_ready(g),
    ensures
        resolve_next(g, Some(w)) == g,
{
}

/// Reuse: every completed resolution leaves the record equal to a freshly
/// initialized one — the retention path directly, the payout path through
/// [`confirm_payout`] — so the next two joins are admitted and build exactly
/// the state they would build on a new instance.
pub proof fn lemma_reuse(g: GameView, p: PlayerId, q: PlayerId, a: u64, b: u64)
    requires
        is_ready(g),
        a + b <= u64::MAX,
    ensures
        resolve_next(g, Option::<PlayerId>::None) == empty_game(),
        join_outcome(empty_game()) == Ok::<(), ErrorCode>(()),
        join_outcome(join_next(empty_game(), p, a)) == Ok::<(), ErrorCode>(()),
        join_next(join_next(empty_game(), p, a), q, b) == (GameView {
            player_one: Some(p),
            player_two: Some(q),
            wager: (a + b) as u64,
        }),
{
}

} // verus!
