use coinflip::CoinFlipError;

#[test]
fn every_error_has_its_sentence() {
    assert_eq!(CoinFlipError::InvalidBetAmount.message(), "Invalid bet amount. Must be between 0.1-1 SOL");
    assert_eq!(CoinFlipError::InvalidChoice.message(), "Invalid choice. Must be 0 (heads) or 1 (tails)");
    assert_eq!(CoinFlipError::InsufficientHouseBalance.message(), "Insufficient house balance to pay winnings");
    assert_eq!(CoinFlipError::EscrowTransferFailed.message(), "Stake could not be moved into the pool");
    assert_eq!(CoinFlipError::PayoutTransferFailed.message(), "Winnings could not be moved out of the pool");
    assert_eq!(CoinFlipError::ClockUnavailable.message(), "Runtime clock is not available");
    assert_eq!(CoinFlipError::AlreadyInitialized.message(), "Game state is already initialized");
}
