use guardian::query::ReportQueryBuilder;
use guardian::report::TimeOffset;

#[test]
fn query_for_team_within_a_week() {
    let q = ReportQueryBuilder::new()
        .select()
        .where_()
        .cond_header("manager", "Elina Bodzhek")
        .and()
        .cond_time(&TimeOffset::Day(-7), 1_700_000_000)
        .get();
    assert_eq!(
        q,
        "SELECT name,manager,chat_id,timestamp,electricity,network FROM user \n                INNER JOIN survey \n                ON survey.user_id=user.id  WHERE  manager='Elina Bodzhek'  AND  strftime('%Y-%m-%d %H:%M:%S', timestamp) >= strftime('%Y-%m-%d %H:%M:%S', '2023-11-14 22:13:20', '-7 day') "
    );
}

#[test]
fn latest_row_query() {
    let q = ReportQueryBuilder::new().select().where_().cond_header("chat_id", "5").order().get();
    assert!(q.ends_with(" chat_id='5'  ORDER BY survey.id DESC LIMIT 1 "));
}
