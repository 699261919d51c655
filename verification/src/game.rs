//! The blackjack table: the game record and the steps that move it from the
//! deal to the result. Each step either queues a confidential computation or
//! takes one's output into the record.

use vstd::prelude::*;
use crate::cards::{HAND_SLOTS, Outcome};
use crate::error::ErrorCode;
use crate::mpc::{
    Argument, Circuit, ComputationOutputs, MXEEncryptedStruct, QueuedComputation,
    SharedEncryptedStruct, queue_for, queues, same_bytes, zero_word,
};
use crate::state::Pubkey;

verus! {

/// Where the encrypted deck starts in the game's account.
pub const DECK_OFFSET: u32 = 8;

/// Bytes of the encrypted deck: three words.
pub const DECK_LEN: u32 = 96;

/// Where the player's encrypted hand starts in the game's account.
pub const PLAYER_HAND_OFFSET: u32 = 104;

/// Where the dealer's encrypted hand starts in the game's account.
pub const DEALER_HAND_OFFSET: u32 = 136;

/// Bytes of an encrypted hand.
pub const HAND_LEN: u32 = 32;

/// Cards that each side holds after the deal.
pub const OPENING_HAND_SIZE: u8 = 2;

/// The states of a game. A game only moves forward through them.
#[derive(Clone, Copy, Debug, PartialEq, Eq, Structural)]
pub enum GameState {
    Initial,
    PlayerTurn,
    DealerTurn,
    Resolving,
    Resolved,
}

/// One game. The deck and the hands are held encrypted; the hand sizes, the
/// state and whether the player stands are in the clear.
#[derive(Clone, Copy, Debug)]
pub struct BlackjackGame {
    /// The shuffled deck, encrypted to the network, in three words.
    pub deck: [[u8; 32]; 3],
    /// The player's hand, which only the player can read.
    pub player_hand: [u8; 32],
    /// The dealer's hand, encrypted to the network.
    pub dealer_hand: [u8; 32],
    pub deck_nonce: u128,
    pub client_nonce: u128,
    pub dealer_nonce: u128,
    pub game_id: u64,
    pub player_pubkey: Pubkey,
    /// The key that the player's cards are encrypted to.
    pub player_enc_pubkey: [u8; 32],
    pub bump: u8,
    pub game_state: GameState,
    pub player_hand_size: u8,
    pub dealer_hand_size: u8,
    pub player_has_stood: bool,
    pub game_result: u8,
}

pub struct CardsShuffledAndDealtEvent {
    pub player_hand: [u8; 32],
    pub dealer_face_up_card: [u8; 32],
    pub client_nonce: u128,
    pub dealer_client_nonce: u128,
    pub game_id: u64,
}

pub struct PlayerHitEvent {
    pub player_hand: [u8; 32],
    pub client_nonce: u128,
    pub game_id: u64,
}

pub struct PlayerDoubleDownEvent {
    pub player_hand: [u8; 32],
    pub client_nonce: u128,
    pub game_id: u64,
}

pub struct PlayerStandEvent {
    pub is_bust: bool,
    pub game_id: u64,
}

pub struct PlayerBustEvent {
    pub client_nonce: u128,
    pub game_id: u64,
}

pub struct DealerPlayEvent {
    pub dealer_hand: [u8; 32],
    pub dealer_hand_size: u8,
    pub client_nonce: u128,
    pub game_id: u64,
}

pub struct ResultEvent {
    pub winner: String,
    pub game_id: u64,
}

/// What a step of the game makes known.
pub enum GameEvent {
    CardsShuffledAndDealt(CardsShuffledAndDealtEvent),
    PlayerHit(PlayerHitEvent),
    PlayerDoubleDown(PlayerDoubleDownEvent),
    PlayerStand(PlayerStandEvent),
    PlayerBust(PlayerBustEvent),
    DealerPlay(DealerPlayEvent),
    Result(ResultEvent),
}

/// What the deal's computation hands back.
pub struct ShuffleAndDealCardsOutput {
    pub deck: MXEEncryptedStruct<3>,
    pub dealer_hand: MXEEncryptedStruct<1>,
    pub player_hand: SharedEncryptedStruct<1>,
    pub dealer_face_up_card: SharedEncryptedStruct<1>,
}

/// What a hit's computation hands back.
pub struct PlayerHitOutput {
    pub player_hand: SharedEncryptedStruct<1>,
    pub is_bust: bool,
}

/// What a double-down's computation hands back.
pub struct PlayerDoubleDownOutput {
    pub player_hand: SharedEncryptedStruct<1>,
    pub is_bust: bool,
}

/// What a stand's computation hands back.
pub struct PlayerStandOutput {
    pub is_bust: bool,
}

/// What the dealer's computation hands back.
pub struct DealerPlayOutput {
    pub dealer_hand: MXEEncryptedStruct<1>,
    pub dealer_client_hand: SharedEncryptedStruct<1>,
    pub dealer_hand_size: u8,
}

/// What the resolving computation hands back: the outcome's number.
pub struct ResolveGameOutput {
    pub result: u8,
}

impl BlackjackGame {
    /// Whether the record is sound: neither hand holds more cards than it
    /// has slots, and a player who has stood is past the player's turn.
    pub open spec fn wf(self) -> bool {
        &&& self.player_hand_size <= HAND_SLOTS
        &&& self.dealer_hand_size <= HAND_SLOTS
        &&& self.player_has_stood ==> progress(self.game_state) >= progress(GameState::DealerTurn)
    }

    /// Whether some step can still be taken: the game waits for the deal,
    /// for the player, for the dealer or for its resolution.
    pub open spec fn can_go_on(self) -> bool {
        match self.game_state {
            GameState::Initial => true,
            GameState::PlayerTurn => self.player_refusal() is None,
            GameState::DealerTurn => true,
            GameState::Resolving => true,
            GameState::Resolved => false,
        }
    }

    /// Why the player may not act, if so: the wrong state comes before the
    /// player's having stood.
    pub open spec fn player_refusal(self) -> Option<ErrorCode> {
        if self.game_state != GameState::PlayerTurn {
            Some(ErrorCode::InvalidGameState)
        } else if self.player_has_stood {
            Some(ErrorCode::InvalidMove)
        } else {
            None
        }
    }
}

/// The arguments of the deal: the two nonces of the network's outputs, then
/// the player's key with a nonce for each of the player's two outputs.
pub open spec fn deal_arguments(
    mxe_nonce: u128,
    mxe_again_nonce: u128,
    client_pubkey: [u8; 32],
    client_nonce: u128,
    client_again_nonce: u128,
) -> Seq<Argument> {
    seq![
        Argument::PlaintextU128(mxe_nonce),
        Argument::PlaintextU128(mxe_again_nonce),
        Argument::ArcisPubkey(client_pubkey),
        Argument::PlaintextU128(client_nonce),
        Argument::ArcisPubkey(client_pubkey),
        Argument::PlaintextU128(client_again_nonce),
    ]
}

/// The arguments of a hit and of a double-down: the deck, the player's hand,
/// and both hand sizes.
pub open spec fn draw_arguments(game: BlackjackGame, game_address: Pubkey) -> Seq<Argument> {
    seq![
        Argument::PlaintextU128(game.deck_nonce),
        Argument::Account(game_address, DECK_OFFSET, DECK_LEN),
        Argument::ArcisPubkey(game.player_enc_pubkey),
        Argument::PlaintextU128(game.client_nonce),
        Argument::Account(game_address, PLAYER_HAND_OFFSET, HAND_LEN),
        Argument::PlaintextU8(game.player_hand_size),
        Argument::PlaintextU8(game.dealer_hand_size),
    ]
}

/// The arguments of a stand: the player's hand and its size.
pub open spec fn stand_arguments(game: BlackjackGame, game_address: Pubkey) -> Seq<Argument> {
    seq![
        Argument::ArcisPubkey(game.player_enc_pubkey),
        Argument::PlaintextU128(game.client_nonce),
        Argument::Account(game_address, PLAYER_HAND_OFFSET, HAND_LEN),
        Argument::PlaintextU8(game.player_hand_size),
    ]
}

/// The arguments of the dealer's play: the deck, the dealer's hand, the key
/// and nonce that the player's copy is encrypted with, and both hand sizes.
pub open spec fn dealer_arguments(game: BlackjackGame, game_address: Pubkey, nonce: u128) -> Seq<
    Argument,
> {
    seq![
        Argument::PlaintextU128(game.deck_nonce),
        Argument::Account(game_address, DECK_OFFSET, DECK_LEN),
        Argument::PlaintextU128(game.dealer_nonce),
        Argument::Account(game_address, DEALER_HAND_OFFSET, HAND_LEN),
        Argument::ArcisPubkey(game.player_enc_pubkey),
        Argument::PlaintextU128(nonce),
        Argument::PlaintextU8(game.player_hand_size),
        Argument::PlaintextU8(game.dealer_hand_size),
    ]
}

/// The arguments of the resolution: both hands and both hand sizes.
pub open spec fn resolve_arguments(game: BlackjackGame, game_address: Pubkey) -> Seq<Argument> {
    seq![
        Argument::ArcisPubkey(game.player_enc_pubkey),
        Argument::PlaintextU128(game.client_nonce),
        Argument::Account(game_address, PLAYER_HAND_OFFSET, HAND_LEN),
        Argument::PlaintextU128(game.dealer_nonce),
        Argument::Account(game_address, DEALER_HAND_OFFSET, HAND_LEN),
        Argument::PlaintextU8(game.player_hand_size),
        Argument::PlaintextU8(game.dealer_hand_size),
    ]
}

/// The record of a game that was just set up: in its initial state, with no
/// cards, for the given player.
pub open spec fn new_game(game_id: u64, payer: Pubkey, bump: u8, client_pubkey: [u8; 32])
    -> BlackjackGame {
    BlackjackGame {
        deck: vstd::array::spec_array_fill_for_copy_type::<[u8; 32], 3>(zero_word()),
        player_hand: zero_word(),
        dealer_hand: zero_word(),
        deck_nonce: 0,
        client_nonce: 0,
        dealer_nonce: 0,
        game_id,
        player_pubkey: payer,
        player_enc_pubkey: client_pubkey,
        bump,
        game_state: GameState::Initial,
        player_hand_size: 0,
        dealer_hand_size: 0,
        player_has_stood: false,
        game_result: 0,
    }
}

/// Sets up a game for `payer` and queues the shuffle and the deal.
pub fn initialize_blackjack_game(
    game_address: Pubkey,
    payer: Pubkey,
    bump: u8,
    computation_offset: u64,
    game_id: u64,
    mxe_nonce: u128,
    mxe_again_nonce: u128,
    client_pubkey: [u8; 32],
    client_nonce: u128,
    client_again_nonce: u128,
) -> (r: (BlackjackGame, QueuedComputation))
    ensures
        r.0 == new_game(game_id, payer, bump, client_pubkey),
        r.0.wf(),
        queues(
            r.1,
            Circuit::ShuffleAndDealCards,
            computation_offset,
            deal_arguments(
                mxe_nonce,
                mxe_again_nonce,
                client_pubkey,
                client_nonce,
                client_again_nonce,
            ),
            game_address,
        ),
{
    let game = BlackjackGame {
        deck: [[0u8; 32]; 3],
        player_hand: [0u8; 32],
        dealer_hand: [0u8; 32],
        deck_nonce: 0,
        client_nonce: 0,
        dealer_nonce: 0,
        game_id,
        player_pubkey: payer,
        player_enc_pubkey: client_pubkey,
        bump,
        game_state: GameState::Initial,
        player_hand_size: 0,
        dealer_hand_size: 0,
        player_has_stood: false,
        game_result: 0,
    };
    let mut args = Vec::new();
    args.push(Argument::PlaintextU128(mxe_nonce));
    args.push(Argument::PlaintextU128(mxe_again_nonce));
    args.push(Argument::ArcisPubkey(client_pubkey));
    args.push(Argument::PlaintextU128(client_nonce));
    args.push(Argument::ArcisPubkey(client_pubkey));
    args.push(Argument::PlaintextU128(client_again_nonce));
    assert(args@ =~= deal_arguments(
        mxe_nonce,
        mxe_again_nonce,
        client_pubkey,
        client_nonce,
        client_again_nonce,
    ));
    (game, queue_for(Circuit::ShuffleAndDealCards, computation_offset, args, game_address))
}

/// The record after the deal: deck and hands as dealt, two cards a side, the
/// player's turn.
pub open spec fn after_deal(game: BlackjackGame, o: ShuffleAndDealCardsOutput) -> BlackjackGame {
    BlackjackGame {
        deck: o.deck.ciphertexts,
        deck_nonce: o.deck.nonce,
        client_nonce: o.player_hand.nonce,
        dealer_nonce: o.dealer_hand.nonce,
        player_enc_pubkey: o.player_hand.encryption_key,
        game_state: GameState::PlayerTurn,
        player_hand: o.player_hand.ciphertexts[0],
        dealer_hand: o.dealer_hand.ciphertexts[0],
        player_hand_size: OPENING_HAND_SIZE,
        dealer_hand_size: OPENING_HAND_SIZE,
        ..game
    }
}

/// Takes the deal into the record.
///
/// Fails, and leaves the record as it is, where the computation failed, where
/// the game is past its initial state, or where the dealer's open card is
/// encrypted to another key than the player's hand.
pub fn shuffle_and_deal_cards_callback(
    game: &mut BlackjackGame,
    output: ComputationOutputs<ShuffleAndDealCardsOutput>,
) -> (r: Result<GameEvent, ErrorCode>)
    ensures
        match output {
            ComputationOutputs::Failure => r matches Err(ErrorCode::AbortedComputation),
            ComputationOutputs::Success(o) => if old(game).game_state != GameState::Initial {
                r matches Err(ErrorCode::InvalidGameState)
            } else if o.dealer_face_up_card.encryption_key != o.player_hand.encryption_key {
                r matches Err(ErrorCode::InvalidDealerClientPubkey)
            } else {
                &&& *final(game) == after_deal(*old(game), o)
                &&& r matches Ok(GameEvent::CardsShuffledAndDealt(e))
                &&& e.player_hand == o.player_hand.ciphertexts[0]
                &&& e.dealer_face_up_card == o.dealer_face_up_card.ciphertexts[0]
                &&& e.client_nonce == o.player_hand.nonce
                &&& e.dealer_client_nonce == o.dealer_face_up_card.nonce
                &&& e.game_id == old(game).game_id
            },
        },
        r is Err ==> *final(game) == *old(game),
        old(game).wf() ==> final(game).wf(),
        progress(final(game).game_state) >= progress(old(game).game_state),
{
    let o = match output {
        ComputationOutputs::Success(o) => o,
        ComputationOutputs::Failure => {
            return Err(ErrorCode::AbortedComputation);
        },
    };
    if game.game_state != GameState::Initial {
        return Err(ErrorCode::InvalidGameState);
    }
    if !same_bytes(&o.dealer_face_up_card.encryption_key, &o.player_hand.encryption_key) {
        return Err(ErrorCode::InvalidDealerClientPubkey);
    }
    game.deck = o.deck.ciphertexts;
    game.deck_nonce = o.deck.nonce;
    game.client_nonce = o.player_hand.nonce;
    game.dealer_nonce = o.dealer_hand.nonce;
    game.player_enc_pubkey = o.player_hand.encryption_key;
    game.game_state = GameState::PlayerTurn;
    game.player_hand = o.player_hand.ciphertexts[0];
    game.dealer_hand = o.dealer_hand.ciphertexts[0];
    game.player_hand_size = OPENING_HAND_SIZE;
    game.dealer_hand_size = OPENING_HAND_SIZE;
    Ok(
        GameEvent::CardsShuffledAndDealt(
            CardsShuffledAndDealtEvent {
                player_hand: o.player_hand.ciphertexts[0],
                dealer_face_up_card: o.dealer_face_up_card.ciphertexts[0],
                client_nonce: o.player_hand.nonce,
                dealer_client_nonce: o.dealer_face_up_card.nonce,
                game_id: game.game_id,
            },
        ),
    )
}

/// Tells why the player may not act, if so.
fn check_player_may_act(game: &BlackjackGame) -> (r: Result<(), ErrorCode>)
    ensures
        r == match game.player_refusal() {
            Some(e) => Err::<(), ErrorCode>(e),
            None => Ok(()),
        },
{
    if game.game_state != GameState::PlayerTurn {
        return Err(ErrorCode::InvalidGameState);
    }
    if game.player_has_stood {
        return Err(ErrorCode::InvalidMove);
    }
    Ok(())
}

/// Builds the arguments of a hit or a double-down.
fn build_draw_arguments(game: &BlackjackGame, game_address: Pubkey) -> (args: Vec<Argument>)
    ensures
        args@ == draw_arguments(*game, game_address),
{
    let mut args = Vec::new();
    args.push(Argument::PlaintextU128(game.deck_nonce));
    args.push(Argument::Account(game_address, DECK_OFFSET, DECK_LEN));
    args.push(Argument::ArcisPubkey(game.player_enc_pubkey));
    args.push(Argument::PlaintextU128(game.client_nonce));
    args.push(Argument::Account(game_address, PLAYER_HAND_OFFSET, HAND_LEN));
    args.push(Argument::PlaintextU8(game.player_hand_size));
    args.push(Argument::PlaintextU8(game.dealer_hand_size));
    args
}

/// Queues a hit. Legal only in the player's turn, for a player who has not
/// stood.
pub fn player_hit(
    game: &BlackjackGame,
    game_address: Pubkey,
    computation_offset: u64,
    _game_id: u64,
) -> (r: Result<QueuedComputation, ErrorCode>)
    ensures
        match game.player_refusal() {
            Some(e) => r matches Err(f) && f == e,
            None => r matches Ok(q) && queues(
                q,
                Circuit::PlayerHit,
                computation_offset,
                draw_arguments(*game, game_address),
                game_address,
            ),
        },
{
    check_player_may_act(game)?;
    let args = build_draw_arguments(game, game_address);
    Ok(queue_for(Circuit::PlayerHit, computation_offset, args, game_address))
}

/// The record after a hit: the new hand, which holds one card more; a
/// player who is bust hands over to the dealer, any other player may go on.
/// The card counts as dealt either way, so that the next draw takes another.
pub open spec fn after_hit(game: BlackjackGame, o: PlayerHitOutput) -> BlackjackGame {
    BlackjackGame {
        player_hand: o.player_hand.ciphertexts[0],
        client_nonce: o.player_hand.nonce,
        game_state: if o.is_bust {
            GameState::DealerTurn
        } else {
            GameState::PlayerTurn
        },
        player_hand_size: (game.player_hand_size + 1) as u8,
        ..game
    }
}

/// Why a drawn card cannot be taken into the record, if so: the player may
/// not act, or the hand has no slot left for the card.
pub open spec fn draw_refusal(game: BlackjackGame) -> Option<ErrorCode> {
    match game.player_refusal() {
        Some(e) => Some(e),
        None => if game.player_hand_size >= HAND_SLOTS {
            Some(ErrorCode::InvalidMove)
        } else {
            None
        },
    }
}

/// Tells why a drawn card cannot be taken into the record, if so.
fn check_player_may_draw(game: &BlackjackGame) -> (r: Result<(), ErrorCode>)
    ensures
        r == match draw_refusal(*game) {
            Some(e) => Err::<(), ErrorCode>(e),
            None => Ok(()),
        },
{
    check_player_may_act(game)?;
    if game.player_hand_size as usize >= HAND_SLOTS {
        return Err(ErrorCode::InvalidMove);
    }
    Ok(())
}

/// Takes a hit's output into the record.
pub fn player_hit_callback(game: &mut BlackjackGame, output: ComputationOutputs<PlayerHitOutput>) -> (r:
    Result<GameEvent, ErrorCode>)
    ensures
        match output {
            ComputationOutputs::Failure => r matches Err(ErrorCode::AbortedComputation),
            ComputationOutputs::Success(o) => match draw_refusal(*old(game)) {
                Some(e) => r matches Err(f) && f == e,
                None => {
                    &&& *final(game) == after_hit(*old(game), o)
                    &&& o.is_bust ==> (r matches Ok(GameEvent::PlayerBust(e)) && e.client_nonce
                        == o.player_hand.nonce && e.game_id == old(game).game_id)
                    &&& !o.is_bust ==> (r matches Ok(GameEvent::PlayerHit(e)) && e.player_hand
                        == o.player_hand.ciphertexts[0] && e.client_nonce == o.player_hand.nonce
                        && e.game_id == old(game).game_id)
                },
            },
        },
        r is Err ==> *final(game) == *old(game),
        old(game).wf() ==> final(game).wf(),
        progress(final(game).game_state) >= progress(old(game).game_state),
{
    let o = match output {
        ComputationOutputs::Success(o) => o,
        ComputationOutputs::Failure => {
            return Err(ErrorCode::AbortedComputation);
        },
    };
    check_player_may_draw(game)?;
    let player_hand = o.player_hand.ciphertexts[0];
    let client_nonce = o.player_hand.nonce;
    game.player_hand = player_hand;
    game.client_nonce = client_nonce;
    game.player_hand_size = game.player_hand_size + 1;
    if o.is_bust {
        game.game_state = GameState::DealerTurn;
        Ok(GameEvent::PlayerBust(PlayerBustEvent { client_nonce, game_id: game.game_id }))
    } else {
        game.game_state = GameState::PlayerTurn;
        Ok(
            GameEvent::PlayerHit(
                PlayerHitEvent { player_hand, client_nonce, game_id: game.game_id },
            ),
        )
    }
}

/// Queues a double-down. Legal only in the player's turn, for a player who
/// has not stood.
pub fn player_double_down(
    game: &BlackjackGame,
    game_address: Pubkey,
    computation_offset: u64,
    _game_id: u64,
) -> (r: Result<QueuedComputation, ErrorCode>)
    ensures
        match game.player_refusal() {
            Some(e) => r matches Err(f) && f == e,
            None => r matches Ok(q) && queues(
                q,
                Circuit::PlayerDoubleDown,
                computation_offset,
                draw_arguments(*game, game_address),
                game_address,
            ),
        },
{
    check_player_may_act(game)?;
    let args = build_draw_arguments(game, game_address);
    Ok(queue_for(Circuit::PlayerDoubleDown, computation_offset, args, game_address))
}

/// The record after a double-down: the new hand, which holds one card more,
/// the player has stood, and the dealer is next, bust or not.
pub open spec fn after_double_down(game: BlackjackGame, o: PlayerDoubleDownOutput)
    -> BlackjackGame {
    BlackjackGame {
        player_hand: o.player_hand.ciphertexts[0],
        client_nonce: o.player_hand.nonce,
        player_hand_size: (game.player_hand_size + 1) as u8,
        player_has_stood: true,
        game_state: GameState::DealerTurn,
        ..game
    }
}

/// Takes a double-down's output into the record.
pub fn player_double_down_callback(
    game: &mut BlackjackGame,
    output: ComputationOutputs<PlayerDoubleDownOutput>,
) -> (r: Result<GameEvent, ErrorCode>)
    ensures
        match output {
            ComputationOutputs::Failure => r matches Err(ErrorCode::AbortedComputation),
            ComputationOutputs::Success(o) => match draw_refusal(*old(game)) {
                Some(e) => r matches Err(f) && f == e,
                None => {
                    &&& *final(game) == after_double_down(*old(game), o)
                    &&& o.is_bust ==> (r matches Ok(GameEvent::PlayerBust(e)) && e.client_nonce
                        == o.player_hand.nonce && e.game_id == old(game).game_id)
                    &&& !o.is_bust ==> (r matches Ok(GameEvent::PlayerDoubleDown(e))
                        && e.player_hand == o.player_hand.ciphertexts[0] && e.client_nonce
                        == o.player_hand.nonce && e.game_id == old(game).game_id)
                },
            },
        },
        r is Err ==> *final(game) == *old(game),
        old(game).wf() ==> final(game).wf(),
        progress(final(game).game_state) >= progress(old(game).game_state),
{
    let o = match output {
        ComputationOutputs::Success(o) => o,
        ComputationOutputs::Failure => {
            return Err(ErrorCode::AbortedComputation);
        },
    };
    check_player_may_draw(game)?;
    let player_hand = o.player_hand.ciphertexts[0];
    let client_nonce = o.player_hand.nonce;
    game.player_hand = player_hand;
    game.client_nonce = client_nonce;
    game.player_hand_size = game.player_hand_size + 1;
    game.player_has_stood = true;
    game.game_state = GameState::DealerTurn;
    if o.is_bust {
        Ok(GameEvent::PlayerBust(PlayerBustEvent { client_nonce, game_id: game.game_id }))
    } else {
        Ok(
            GameEvent::PlayerDoubleDown(
                PlayerDoubleDownEvent { player_hand, client_nonce, game_id: game.game_id },
            ),
        )
    }
}

/// Queues a stand. Legal only in the player's turn, for a player who has not
/// stood.
pub fn player_stand(
    game: &BlackjackGame,
    game_address: Pubkey,
    computation_offset: u64,
    _game_id: u64,
) -> (r: Result<QueuedComputation, ErrorCode>)
    ensures
        match game.player_refusal() {
            Some(e) => r matches Err(f) && f == e,
            None => r matches Ok(q) && queues(
                q,
                Circuit::PlayerStand,
                computation_offset,
                stand_arguments(*game, game_address),
                game_address,
            ),
        },
{
    check_player_may_act(game)?;
    let mut args = Vec::new();
    args.push(Argument::ArcisPubkey(game.player_enc_pubkey));
    args.push(Argument::PlaintextU128(game.client_nonce));
    args.push(Argument::Account(game_address, PLAYER_HAND_OFFSET, HAND_LEN));
    args.push(Argument::PlaintextU8(game.player_hand_size));
    assert(args@ =~= stand_arguments(*game, game_address));
    Ok(queue_for(Circuit::PlayerStand, computation_offset, args, game_address))
}

/// The record after a stand: the player has stood and the dealer is next,
/// whether or not the stand found the player bust.
pub open spec fn after_stand(game: BlackjackGame) -> BlackjackGame {
    BlackjackGame { player_has_stood: true, game_state: GameState::DealerTurn, ..game }
}

/// Takes a stand's output into the record.
pub fn player_stand_callback(
    game: &mut BlackjackGame,
    output: ComputationOutputs<PlayerStandOutput>,
) -> (r: Result<GameEvent, ErrorCode>)
    ensures
        match output {
            ComputationOutputs::Failure => r matches Err(ErrorCode::AbortedComputation),
            ComputationOutputs::Success(o) => match old(game).player_refusal() {
                Some(e) => r matches Err(f) && f == e,
                None => {
                    &&& *final(game) == after_stand(*old(game))
                    &&& o.is_bust ==> (r matches Ok(GameEvent::PlayerBust(e)) && e.client_nonce
                        == old(game).client_nonce && e.game_id == old(game).game_id)
                    &&& !o.is_bust ==> (r matches Ok(GameEvent::PlayerStand(e)) && !e.is_bust
                        && e.game_id == old(game).game_id)
                },
            },
        },
        r is Err ==> *final(game) == *old(game),
        old(game).wf() ==> final(game).wf(),
        progress(final(game).game_state) >= progress(old(game).game_state),
{
    let o = match output {
        ComputationOutputs::Success(o) => o,
        ComputationOutputs::Failure => {
            return Err(ErrorCode::AbortedComputation);
        },
    };
    check_player_may_act(game)?;
    game.player_has_stood = true;
    game.game_state = GameState::DealerTurn;
    if o.is_bust {
        Ok(
            GameEvent::PlayerBust(
                PlayerBustEvent { client_nonce: game.client_nonce, game_id: game.game_id },
            ),
        )
    } else {
        Ok(GameEvent::PlayerStand(PlayerStandEvent { is_bust: false, game_id: game.game_id }))
    }
}

/// Queues the dealer's play. Legal only in the dealer's turn.
pub fn dealer_play(
    game: &BlackjackGame,
    game_address: Pubkey,
    computation_offset: u64,
    _game_id: u64,
    nonce: u128,
) -> (r: Result<QueuedComputation, ErrorCode>)
    ensures
        game.game_state != GameState::DealerTurn ==> r matches Err(ErrorCode::InvalidGameState),
        game.game_state == GameState::DealerTurn ==> (r matches Ok(q) && queues(
            q,
            Circuit::DealerPlay,
            computation_offset,
            dealer_arguments(*game, game_address, nonce),
            game_address,
        )),
{
    if game.game_state != GameState::DealerTurn {
        return Err(ErrorCode::InvalidGameState);
    }
    let mut args = Vec::new();
    args.push(Argument::PlaintextU128(game.deck_nonce));
    args.push(Argument::Account(game_address, DECK_OFFSET, DECK_LEN));
    args.push(Argument::PlaintextU128(game.dealer_nonce));
    args.push(Argument::Account(game_address, DEALER_HAND_OFFSET, HAND_LEN));
    args.push(Argument::ArcisPubkey(game.player_enc_pubkey));
    args.push(Argument::PlaintextU128(nonce));
    args.push(Argument::PlaintextU8(game.player_hand_size));
    args.push(Argument::PlaintextU8(game.dealer_hand_size));
    assert(args@ =~= dealer_arguments(*game, game_address, nonce));
    Ok(queue_for(Circuit::DealerPlay, computation_offset, args, game_address))
}

/// The record after the dealer's play: the dealer's final hand and its size,
/// ready to be resolved.
pub open spec fn after_dealer_play(game: BlackjackGame, o: DealerPlayOutput) -> BlackjackGame {
    BlackjackGame {
        dealer_hand: o.dealer_hand.ciphertexts[0],
        dealer_nonce: o.dealer_hand.nonce,
        dealer_hand_size: o.dealer_hand_size,
        game_state: GameState::Resolving,
        ..game
    }
}

/// Takes the dealer's play into the record. A hand size that no hand can
/// have counts as a failed computation.
pub fn dealer_play_callback(
    game: &mut BlackjackGame,
    output: ComputationOutputs<DealerPlayOutput>,
) -> (r: Result<GameEvent, ErrorCode>)
    ensures
        match output {
            ComputationOutputs::Failure => r matches Err(ErrorCode::AbortedComputation),
            ComputationOutputs::Success(o) => if o.dealer_hand_size > HAND_SLOTS {
                r matches Err(ErrorCode::AbortedComputation)
            } else if old(game).game_state != GameState::DealerTurn {
                r matches Err(ErrorCode::InvalidGameState)
            } else {
                &&& *final(game) == after_dealer_play(*old(game), o)
                &&& r matches Ok(GameEvent::DealerPlay(e))
                &&& e.dealer_hand == o.dealer_client_hand.ciphertexts[0]
                &&& e.dealer_hand_size == o.dealer_hand_size
                &&& e.client_nonce == o.dealer_client_hand.nonce
                &&& e.game_id == old(game).game_id
            },
        },
        r is Err ==> *final(game) == *old(game),
        old(game).wf() ==> final(game).wf(),
        progress(final(game).game_state) >= progress(old(game).game_state),
{
    let o = match output {
        ComputationOutputs::Success(o) => o,
        ComputationOutputs::Failure => {
            return Err(ErrorCode::AbortedComputation);
        },
    };
    if o.dealer_hand_size as usize > HAND_SLOTS {
        return Err(ErrorCode::AbortedComputation);
    }
    if game.game_state != GameState::DealerTurn {
        return Err(ErrorCode::InvalidGameState);
    }
    game.dealer_hand = o.dealer_hand.ciphertexts[0];
    game.dealer_nonce = o.dealer_hand.nonce;
    game.dealer_hand_size = o.dealer_hand_size;
    game.game_state = GameState::Resolving;
    Ok(
        GameEvent::DealerPlay(
            DealerPlayEvent {
                dealer_hand: o.dealer_client_hand.ciphertexts[0],
                dealer_hand_size: o.dealer_hand_size,
                client_nonce: o.dealer_client_hand.nonce,
                game_id: game.game_id,
            },
        ),
    )
}

/// Queues the resolution. Legal only once the dealer has played.
pub fn resolve_game(
    game: &BlackjackGame,
    game_address: Pubkey,
    computation_offset: u64,
    _game_id: u64,
) -> (r: Result<QueuedComputation, ErrorCode>)
    ensures
        game.game_state != GameState::Resolving ==> r matches Err(ErrorCode::InvalidGameState),
        game.game_state == GameState::Resolving ==> (r matches Ok(q) && queues(
            q,
            Circuit::ResolveGame,
            computation_offset,
            resolve_arguments(*game, game_address),
            game_address,
        )),
{
    if game.game_state != GameState::Resolving {
        return Err(ErrorCode::InvalidGameState);
    }
    let mut args = Vec::new();
    args.push(Argument::ArcisPubkey(game.player_enc_pubkey));
    args.push(Argument::PlaintextU128(game.client_nonce));
    args.push(Argument::Account(game_address, PLAYER_HAND_OFFSET, HAND_LEN));
    args.push(Argument::PlaintextU128(game.dealer_nonce));
    args.push(Argument::Account(game_address, DEALER_HAND_OFFSET, HAND_LEN));
    args.push(Argument::PlaintextU8(game.player_hand_size));
    args.push(Argument::PlaintextU8(game.dealer_hand_size));
    assert(args@ =~= resolve_arguments(*game, game_address));
    Ok(queue_for(Circuit::ResolveGame, computation_offset, args, game_address))
}

/// Who an outcome names as the winner.
pub open spec fn winner_of(outcome: Outcome) -> &'static str {
    match outcome {
        Outcome::PlayerBust => "Dealer",
        Outcome::DealerBust => "Player",
        Outcome::PlayerWins => "Player",
        Outcome::DealerWins => "Dealer",
        Outcome::Push => "Tie",
    }
}

/// Names the winner of an outcome.
pub fn winner(outcome: Outcome) -> (s: &'static str)
    ensures
        s == winner_of(outcome),
{
    match outcome {
        Outcome::PlayerBust => "Dealer",
        Outcome::DealerBust => "Player",
        Outcome::PlayerWins => "Player",
        Outcome::DealerWins => "Dealer",
        Outcome::Push => "Tie",
    }
}

/// Takes the result of a game into the record and names the winner. A number
/// that stands for no outcome counts as a failed computation.
pub fn resolve_game_callback(
    game: &mut BlackjackGame,
    output: ComputationOutputs<ResolveGameOutput>,
) -> (r: Result<GameEvent, ErrorCode>)
    ensures
        match output {
            ComputationOutputs::Failure => r matches Err(ErrorCode::AbortedComputation),
            ComputationOutputs::Success(o) => match Outcome::from_code_spec(o.result) {
                None => r matches Err(ErrorCode::AbortedComputation),
                Some(outcome) => if old(game).game_state != GameState::Resolving {
                    r matches Err(ErrorCode::InvalidGameState)
                } else {
                    &&& *final(game) == (BlackjackGame {
                        game_state: GameState::Resolved,
                        ..*old(game)
                    })
                    &&& r matches Ok(GameEvent::Result(e))
                    &&& e.winner@ == winner_of(outcome)@
                    &&& e.game_id == old(game).game_id
                },
            },
        },
        r is Err ==> *final(game) == *old(game),
        old(game).wf() ==> final(game).wf(),
        progress(final(game).game_state) >= progress(old(game).game_state),
{
    let o = match output {
        ComputationOutputs::Success(o) => o,
        ComputationOutputs::Failure => {
            return Err(ErrorCode::AbortedComputation);
        },
    };
    let outcome = match Outcome::from_code(o.result) {
        Some(outcome) => outcome,
        None => {
            return Err(ErrorCode::AbortedComputation);
        },
    };
    if game.game_state != GameState::Resolving {
        return Err(ErrorCode::InvalidGameState);
    }
    game.game_state = GameState::Resolved;
    Ok(GameEvent::Result(ResultEvent { winner: winner(outcome).to_owned(), game_id: game.game_id }))
}

/// A sound game is never stuck: until it is resolved, a step is open in
/// every state.
pub proof fn lemma_never_stuck(game: BlackjackGame)
    requires
        game.wf(),
        game.game_state != GameState::Resolved,
    ensures
        game.can_go_on(),
{
}

/// How far a state is along the game.
pub open spec fn progress(state: GameState) -> nat {
    match state {
        GameState::Initial => 0,
        GameState::PlayerTurn => 1,
        GameState::DealerTurn => 2,
        GameState::Resolving => 3,
        GameState::Resolved => 4,
    }
}

} // verus!
