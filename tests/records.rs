use vault::spending::check_and_reserve;
use vault::storage::{
    add_comment_to_proposal, get_attachments, get_comment, get_crosschain_asset,
    get_daily_spent, get_next_comment_id, get_notification_prefs, get_proposal_comments,
    get_recurring_payment, get_weekly_spent, increment_comment_id, increment_proposal_id,
    set_attachments, set_comment, set_notification_prefs, set_recurring_payment, Storage,
};
use vault::types::{Comment, NotificationPreferences, RecurringPayment, VaultError};

#[test]
fn daily_bucket_never_exceeds_cap() {
    let mut s = Storage::new();
    let ts: u64 = 5 * 86_400 + 10;
    let mut accepted: i128 = 0;
    for amount in [300i128, 300, 300, 300, 100, 1] {
        if check_and_reserve(&mut s, 500, 1000, 10_000, amount, ts).is_ok() {
            accepted += amount;
        }
        assert!(get_daily_spent(&s, 5) <= 1000);
    }
    assert_eq!(accepted, 1000);
    assert_eq!(get_daily_spent(&s, 5), 1000);
    assert_eq!(get_weekly_spent(&s, 0), 1000);
    assert_eq!(check_and_reserve(&mut s, 500, 1000, 10_000, 1, ts), Err(VaultError::LimitExceeded));
    assert_eq!(get_daily_spent(&s, 5), 1000);
    // A new day starts an empty bucket; the week keeps counting.
    assert!(check_and_reserve(&mut s, 500, 1000, 1200, 200, ts + 86_400).is_ok());
    assert_eq!(check_and_reserve(&mut s, 500, 1000, 1200, 1, ts + 86_400), Err(VaultError::LimitExceeded));
    assert_eq!(get_daily_spent(&s, 6), 200);
    assert_eq!(get_weekly_spent(&s, 0), 1200);
}

#[test]
fn comments_are_numbered_and_listed() {
    let mut s = Storage::new();
    assert_eq!(get_next_comment_id(&s), 1);
    let id = increment_comment_id(&mut s);
    assert_eq!(id, 1);
    assert_eq!(get_next_comment_id(&s), 2);
    set_comment(
        &mut s,
        Comment { id, proposal_id: 3, author: 7, text: String::from("ok"), parent_id: 0, created_at: 1, edited_at: 0 },
    );
    add_comment_to_proposal(&mut s, 3, id);
    add_comment_to_proposal(&mut s, 3, 9);
    assert_eq!(get_proposal_comments(&s, 3), vec![1, 9]);
    assert!(get_proposal_comments(&s, 4).is_empty());
    assert_eq!(get_comment(&s, 1).unwrap().author, 7);
    assert!(matches!(get_comment(&s, 2), Err(VaultError::ProposalNotFound)));
    assert_eq!(increment_proposal_id(&mut s), 1);
    assert_eq!(increment_proposal_id(&mut s), 2);
}

#[test]
fn keyed_records_round_trip() {
    let mut s = Storage::new();
    set_attachments(&mut s, 2, vec![String::from("QmHash")]);
    assert_eq!(get_attachments(&s, 2), &[String::from("QmHash")][..]);
    assert!(get_attachments(&s, 3).is_empty());
    let quiet = NotificationPreferences {
        notify_on_proposal: false,
        notify_on_approval: false,
        notify_on_execution: false,
        notify_on_rejection: false,
        notify_on_expiry: true,
    };
    set_notification_prefs(&mut s, 5, quiet);
    assert_eq!(get_notification_prefs(&s, 5), quiet);
    assert_eq!(get_notification_prefs(&s, 6), NotificationPreferences::default());
    set_recurring_payment(
        &mut s,
        RecurringPayment {
            id: 4,
            proposer: 1,
            recipient: 2,
            token: 3,
            amount: 50,
            memo: String::from("salary"),
            interval: 10,
            next_payment_ledger: 20,
            payment_count: 0,
            is_active: true,
        },
    );
    assert_eq!(get_recurring_payment(&s, 4).unwrap().amount, 50);
    assert!(matches!(get_recurring_payment(&s, 5), Err(VaultError::ProposalNotFound)));
    assert!(matches!(get_crosschain_asset(&s, 1), Err(VaultError::ProposalNotFound)));
}
