use vstd::prelude::*;

verus! {

// The four tables. Fixed-point amounts (see `amount`) are INTEGER columns,
// instants RFC 3339 TEXT, variant tags and factor maps TEXT.

/// The words that open every statement: a table that exists already is
/// left as it is, so the statements can run at every start.
pub open spec fn create_if_absent() -> Seq<char> {
    "CREATE TABLE IF NOT EXISTS "@
}

/// The column list of psychological_states.
pub open spec fn psychological_states_columns() -> Seq<char> {
    " (
            id INTEGER PRIMARY KEY,
            timestamp TEXT NOT NULL,
            gain_loss_yesterday INTEGER NOT NULL,
            emotional_state INTEGER NOT NULL,
            fomo INTEGER NOT NULL,
            market_bias INTEGER NOT NULL,
            hunger INTEGER NOT NULL,
            headache_pain INTEGER NOT NULL,
            extra_factors TEXT NOT NULL,
            total_risk_score INTEGER NOT NULL
        )"@
}

/// The column list of stock_ratings.
pub open spec fn stock_ratings_columns() -> Seq<char> {
    " (
            id INTEGER PRIMARY KEY,
            timestamp TEXT NOT NULL,
            symbol TEXT NOT NULL,
            security_name TEXT,
            sector TEXT NOT NULL,
            market_sentiment INTEGER NOT NULL,
            sector_sentiment INTEGER NOT NULL,
            security_sentiment INTEGER NOT NULL,
            bull_bear INTEGER NOT NULL,
            confidence INTEGER NOT NULL,
            market_trend TEXT NOT NULL,
            chart_pattern TEXT NOT NULL,
            strategy TEXT NOT NULL,
            overall_score INTEGER NOT NULL,
            notes TEXT
        )"@
}

/// The column list of detailed_analyses.
pub open spec fn detailed_analyses_columns() -> Seq<char> {
    " (
            id INTEGER PRIMARY KEY,
            timestamp TEXT NOT NULL,
            bull_bear INTEGER NOT NULL,
            confidence INTEGER NOT NULL,
            market_trend TEXT NOT NULL,
            chart_pattern TEXT NOT NULL,
            strategy TEXT NOT NULL,
            overall_score INTEGER NOT NULL,
            market_sentiment INTEGER NOT NULL,
            sector_sentiment INTEGER NOT NULL,
            sector TEXT NOT NULL,
            security TEXT NOT NULL,
            bought BOOLEAN NOT NULL,
            entry_reason TEXT NOT NULL,
            time TEXT NOT NULL,
            entry_price INTEGER NOT NULL,
            stop_loss INTEGER NOT NULL,
            target_price INTEGER NOT NULL,
            short_leg TEXT,
            long_leg TEXT,
            debit_credit INTEGER NOT NULL,
            quantity INTEGER NOT NULL,
            risk_max INTEGER NOT NULL,
            reward INTEGER NOT NULL,
            max_gain INTEGER,
            percent_profit INTEGER,
            delta INTEGER,
            theta INTEGER,
            gamma INTEGER,
            vega INTEGER,
            alerts TEXT NOT NULL,
            exit_reason TEXT,
            skip_reason TEXT
        )"@
}

/// The column list of trades.
pub open spec fn trades_columns() -> Seq<char> {
    " (
            id INTEGER PRIMARY KEY,
            analysis_id INTEGER NOT NULL,
            timestamp TEXT NOT NULL,
            symbol TEXT NOT NULL,
            status TEXT NOT NULL,
            entry_time TEXT,
            exit_time TEXT,
            entry_price INTEGER,
            exit_price INTEGER,
            quantity INTEGER NOT NULL,
            profit_loss INTEGER,
            percent_return INTEGER,
            notes TEXT,
            FOREIGN KEY (analysis_id) REFERENCES detailed_analyses (id)
        )"@
}

/// The statement that creates `name` with the columns `columns`, unless it
/// exists.
fn create_statement(name: &str, columns: &str) -> (r: String)
    ensures
        r@ == create_if_absent() + name@ + columns@,
{
    let mut s = String::from_str("CREATE TABLE IF NOT EXISTS ");
    s.append(name);
    s.append(columns);
    s
}

/// The statements that create the four tables, psychological_states,
/// stock_ratings, detailed_analyses and trades, each only where it is
/// absent.
pub fn schema_statements() -> (r: Vec<String>)
    ensures
        r@.len() == 4,
        r@[0]@ == create_if_absent() + "psychological_states"@ + psychological_states_columns(),
        r@[1]@ == create_if_absent() + "stock_ratings"@ + stock_ratings_columns(),
        r@[2]@ == create_if_absent() + "detailed_analyses"@ + detailed_analyses_columns(),
        r@[3]@ == create_if_absent() + "trades"@ + trades_columns(),
{
    let mut r: Vec<String> = Vec::new();
    let s = create_statement("psychological_states", " (
            id INTEGER PRIMARY KEY,
            timestamp TEXT NOT NULL,
            gain_loss_yesterday INTEGER NOT NULL,
            emotional_state INTEGER NOT NULL,
            fomo INTEGER NOT NULL,
            market_bias INTEGER NOT NULL,
            hunger INTEGER NOT NULL,
            headache_pain INTEGER NOT NULL,
            extra_factors TEXT NOT NULL,
            total_risk_score INTEGER NOT NULL
        )");
    r.push(s);
    let s = create_statement("stock_ratings", " (
            id INTEGER PRIMARY KEY,
            timestamp TEXT NOT NULL,
            symbol TEXT NOT NULL,
            security_name TEXT,
            sector TEXT NOT NULL,
            market_sentiment INTEGER NOT NULL,
            sector_sentiment INTEGER NOT NULL,
            security_sentiment INTEGER NOT NULL,
            bull_bear INTEGER NOT NULL,
            confidence INTEGER NOT NULL,
            market_trend TEXT NOT NULL,
            chart_pattern TEXT NOT NULL,
            strategy TEXT NOT NULL,
            overall_score INTEGER NOT NULL,
            notes TEXT
        )");
    r.push(s);
    let s = create_statement("detailed_analyses", " (
            id INTEGER PRIMARY KEY,
            timestamp TEXT NOT NULL,
            bull_bear INTEGER NOT NULL,
            confidence INTEGER NOT NULL,
            market_trend TEXT NOT NULL,
            chart_pattern TEXT NOT NULL,
            strategy TEXT NOT NULL,
            overall_score INTEGER NOT NULL,
            market_sentiment INTEGER NOT NULL,
            sector_sentiment INTEGER NOT NULL,
            sector TEXT NOT NULL,
            security TEXT NOT NULL,
            bought BOOLEAN NOT NULL,
            entry_reason TEXT NOT NULL,
            time TEXT NOT NULL,
            entry_price INTEGER NOT NULL,
            stop_loss INTEGER NOT NULL,
            target_price INTEGER NOT NULL,
            short_leg TEXT,
            long_leg TEXT,
            debit_credit INTEGER NOT NULL,
            quantity INTEGER NOT NULL,
            risk_max INTEGER NOT NULL,
            reward INTEGER NOT NULL,
            max_gain INTEGER,
            percent_profit INTEGER,
            delta INTEGER,
            theta INTEGER,
            gamma INTEGER,
            vega INTEGER,
            alerts TEXT NOT NULL,
            exit_reason TEXT,
            skip_reason TEXT
        )");
    r.push(s);
    let s = create_statement("trades", " (
            id INTEGER PRIMARY KEY,
            analysis_id INTEGER NOT NULL,
            timestamp TEXT NOT NULL,
            symbol TEXT NOT NULL,
            status TEXT NOT NULL,
            entry_time TEXT,
            exit_time TEXT,
            entry_price INTEGER,
            exit_price INTEGER,
            quantity INTEGER NOT NULL,
            profit_loss INTEGER,
            percent_return INTEGER,
            notes TEXT,
            FOREIGN KEY (analysis_id) REFERENCES detailed_analyses (id)
        )");
    r.push(s);
    r
}

} // verus!
