use simple_token::AccountId;
use simple_token::Approval;
use simple_token::Blacklisted;
use simple_token::Burned;
use simple_token::Minted;
use simple_token::Paused;
use simple_token::Transfer;
use simple_token::Unblacklisted;
use simple_token::Unpaused;

#[test]
fn event_records_carry_their_fields() {
    let a = AccountId(10);
    let b = AccountId(11);

    let minted = Minted { to: a, amount: 100, timestamp: 7 };
    assert_eq!(minted.to, a);
    assert_eq!(minted.amount, 100);
    assert_eq!(minted.timestamp, 7);

    let transfer = Transfer { from: a, to: b, amount: 5, timestamp: 8 };
    assert_eq!(transfer.from, a);
    assert_eq!(transfer.to, b);
    assert_eq!(transfer, Transfer { from: a, to: b, amount: 5, timestamp: 8 });

    let burned = Burned { from: b, amount: 3, timestamp: 9 };
    assert_eq!(burned, Burned { from: b, amount: 3, timestamp: 9 });

    let approval = Approval { owner: a, spender: b, amount: 30 };
    assert_eq!(approval.owner, a);
    assert_eq!(approval.spender, b);
    assert_eq!(approval.amount, 30);

    let paused = Paused { by: a, timestamp: 1 };
    let unpaused = Unpaused { by: a, timestamp: 2 };
    assert_eq!(paused.by, unpaused.by);
    assert!(paused.timestamp < unpaused.timestamp);

    let listed = Blacklisted { account: b, by: a };
    let unlisted = Unblacklisted { account: b, by: a };
    assert_eq!(listed.account, unlisted.account);
    assert_eq!(listed.by, unlisted.by);
}
